use vstd::prelude::*;
use vstd::string::*;
use crate::json::str_eq;
use crate::text::{push_char, trim, trimmed};

verus! {

/// A node of a page's document tree, as far as text extraction reads it.
#[derive(Debug, PartialEq)]
pub enum DomNode {
    /// A text node with its raw contents.
    Text(String),
    /// An element with its local tag name (lower case) and its children.
    Element { tag: String, children: Vec<DomNode> },
    /// Any other node (document, comment, doctype, ...) with its children.
    Other { children: Vec<DomNode> },
}

/// Elements whose content is never page text.
pub open spec fn is_hidden_tag(tag: Seq<char>) -> bool {
    tag == "script"@ || tag == "style"@ || tag == "noscript"@
}

/// Elements that start and end a line of text.
pub open spec fn is_block_tag(tag: Seq<char>) -> bool {
    ||| tag == "div"@ || tag == "p"@
    ||| tag == "h1"@ || tag == "h2"@ || tag == "h3"@ || tag == "h4"@ || tag == "h5"@ || tag == "h6"@
    ||| tag == "li"@ || tag == "tr"@ || tag == "br"@ || tag == "hr"@
    ||| tag == "section"@ || tag == "article"@ || tag == "header"@ || tag == "footer"@
    ||| tag == "nav"@ || tag == "main"@ || tag == "aside"@
    ||| tag == "blockquote"@ || tag == "pre"@ || tag == "ul"@ || tag == "ol"@ || tag == "table"@
}

/// The readable text of a node: each non-blank text node trimmed and
/// followed by a space, block elements wrapped in line breaks, and the
/// content of script, style and noscript elements left out.
pub open spec fn node_text(n: DomNode) -> Seq<char>
    decreases n,
{
    match n {
        DomNode::Text(contents) => {
            let t = trimmed(contents@);
            if t.len() == 0 {
                Seq::empty()
            } else {
                t.push(' ')
            }
        },
        DomNode::Element { tag, children } => {
            if is_hidden_tag(tag@) {
                Seq::empty()
            } else if is_block_tag(tag@) {
                seq!['\n'] + children_text(children@) + seq!['\n']
            } else {
                children_text(children@)
            }
        },
        DomNode::Other { children } => children_text(children@),
    }
}

/// The readable text of a list of sibling nodes, one after the other.
pub open spec fn children_text(s: Seq<DomNode>) -> Seq<char>
    decreases s,
{
    if s.len() == 0 {
        Seq::empty()
    } else {
        node_text(s[0]) + children_text(s.subrange(1, s.len() as int))
    }
}

proof fn lemma_children_text_take(s: Seq<DomNode>, i: int)
    requires
        0 <= i < s.len(),
    ensures
        children_text(s.take(i + 1)) == children_text(s.take(i)) + node_text(s[i]),
    decreases i,
{
    let a = s.take(i + 1);
    if i == 0 {
        assert(a.subrange(1, a.len() as int) =~= Seq::<DomNode>::empty());
        assert(s.take(0) =~= Seq::<DomNode>::empty());
        assert(children_text(Seq::<DomNode>::empty()) == Seq::<char>::empty());
        assert(children_text(a) =~= node_text(s[0]));
    } else {
        let t = s.subrange(1, s.len() as int);
        lemma_children_text_take(t, i - 1);
        assert(a.subrange(1, a.len() as int) =~= t.take(i));
        assert(s.take(i).subrange(1, i) =~= t.take(i - 1));
        assert(t[i - 1] == s[i]);
        assert(children_text(a) =~= children_text(s.take(i)) + node_text(s[i]));
    }
}

fn is_hidden(tag: &str) -> (r: bool)
    ensures
        r == is_hidden_tag(tag@),
{
    str_eq(tag, "script") || str_eq(tag, "style") || str_eq(tag, "noscript")
}

fn is_block(tag: &str) -> (r: bool)
    ensures
        r == is_block_tag(tag@),
{
    str_eq(tag, "div") || str_eq(tag, "p") || str_eq(tag, "h1") || str_eq(tag, "h2")
        || str_eq(tag, "h3") || str_eq(tag, "h4") || str_eq(tag, "h5") || str_eq(tag, "h6")
        || str_eq(tag, "li") || str_eq(tag, "tr") || str_eq(tag, "br") || str_eq(tag, "hr")
        || str_eq(tag, "section") || str_eq(tag, "article") || str_eq(tag, "header")
        || str_eq(tag, "footer") || str_eq(tag, "nav") || str_eq(tag, "main") || str_eq(tag, "aside")
        || str_eq(tag, "blockquote") || str_eq(tag, "pre") || str_eq(tag, "ul") || str_eq(tag, "ol")
        || str_eq(tag, "table")
}

fn children_text_exec(children: &Vec<DomNode>) -> (r: String)
    ensures
        r@ == children_text(children@),
    decreases children@, 1nat,
{
    let mut out = String::new();
    let mut i: usize = 0;
    assert(children@.take(0) =~= Seq::<DomNode>::empty());
    while i < children.len()
        invariant
            i <= children@.len(),
            out@ == children_text(children@.take(i as int)),
        decreases children@.len() - i,
    {
        let part = extract_text(&children[i]);
        out.append(part.as_str());
        proof {
            lemma_children_text_take(children@, i as int);
        }
        i = i + 1;
    }
    assert(children@.take(children@.len() as int) =~= children@);
    out
}

/// The readable text of a node and its descendants.
pub fn extract_text(node: &DomNode) -> (r: String)
    ensures
        r@ == node_text(*node),
    decreases *node, 0nat,
{
    match node {
        DomNode::Text(contents) => {
            let t = trim(contents.as_str());
            if t.as_str().is_empty() {
                String::new()
            } else {
                let mut t = t;
                push_char(&mut t, ' ');
                t
            }
        },
        DomNode::Element { tag, children } => {
            if is_hidden(tag.as_str()) {
                String::new()
            } else if is_block(tag.as_str()) {
                let mut out = String::new();
                push_char(&mut out, '\n');
                let inner = children_text_exec(children);
                out.append(inner.as_str());
                push_char(&mut out, '\n');
                out
            } else {
                children_text_exec(children)
            }
        },
        DomNode::Other { children } => children_text_exec(children),
    }
}

/// The text that `browser_snapshot` reports for a page with `url` and
/// `title` whose body element, if the page has one, is `body`.
pub open spec fn snapshot_text(url: Seq<char>, title: Seq<char>, body: Option<DomNode>) -> Seq<char> {
    let text = match body {
        Some(b) => node_text(b),
        None => Seq::empty(),
    };
    "URL: "@ + url + "\nTitle: "@ + title + "\n\n"@ + trimmed(text)
}

/// The report of `browser_snapshot`.
pub fn snapshot(url: &str, title: &str, body: &Option<DomNode>) -> (r: String)
    ensures
        r@ == snapshot_text(url@, title@, *body),
{
    let text = match body {
        Some(b) => extract_text(b),
        None => String::new(),
    };
    let mut out = String::from_str("URL: ");
    out.append(url);
    out.append("\nTitle: ");
    out.append(title);
    out.append("\n\n");
    let t = trim(text.as_str());
    out.append(t.as_str());
    out
}

} // verus!
