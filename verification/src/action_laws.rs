use vstd::prelude::*;
use crate::catalog::Tool;
use crate::dom::{DomNode, children_text, is_block_tag, is_hidden_tag, node_text, snapshot_text};
use crate::encode::{json_string_array, json_string_literal};
use crate::json::JsonV;
use crate::session::{BrowserTaskV, ToolStepV};
use crate::text::trimmed;
use crate::tools::tool_plan;

verus! {

/// Whether `s` ends with `suffix`.
pub open spec fn ends_with(s: Seq<char>, suffix: Seq<char>) -> bool {
    suffix.len() <= s.len() && s.subrange(s.len() - suffix.len(), s.len() as int) == suffix
}

/// Whether `s` starts with `prefix`.
pub open spec fn starts_with(s: Seq<char>, prefix: Seq<char>) -> bool {
    prefix.len() <= s.len() && s.subrange(0, prefix.len() as int) == prefix
}

/// `a` with `before` in front of it and `after` behind it.
pub open spec fn framed(before: Seq<char>, a: Seq<char>, after: Seq<char>) -> Seq<char> {
    before + a + after
}

/// `a` and then `b`, with `before`, `between` and `after` around them.
pub open spec fn two_slots(before: Seq<char>, a: Seq<char>, between: Seq<char>, b: Seq<char>, after: Seq<char>) -> Seq<char> {
    before + a + between + b + after
}

/// Whether `text` holds `part` somewhere.
pub open spec fn holds(text: Seq<char>, part: Seq<char>) -> bool {
    exists|a: Seq<char>, b: Seq<char>| #![trigger framed(a, part, b)] text == framed(a, part, b)
}

/// Whether `text` holds `first` and, later, `second`.
pub open spec fn holds_in_order(text: Seq<char>, first: Seq<char>, second: Seq<char>) -> bool {
    exists|a: Seq<char>, b: Seq<char>, c: Seq<char>| #![trigger two_slots(a, first, b, second, c)]
        text == two_slots(a, first, b, second, c)
}

/// Whether `script` looks up the element matching `sel` and then assigns
/// to its value, by the statement that starts with `assignment`, the string
/// `value`, both embedded as JSON string literals.
pub open spec fn assigns_value(script: Seq<char>, sel: Seq<char>, assignment: Seq<char>, value: Seq<char>) -> bool {
    exists|pre: Seq<char>, mid: Seq<char>, post: Seq<char>|
        #![trigger two_slots(pre, json_string_literal(sel), mid, json_string_literal(value), post)]
        script == two_slots(pre, json_string_literal(sel), mid, json_string_literal(value), post)
            && ends_with(pre, "document.querySelector("@) && ends_with(mid, assignment) && starts_with(post, ";"@)
}

/// Whether the key events of `script` go to `target`.
pub open spec fn key_events_target(script: Seq<char>, target: Seq<char>) -> bool {
    exists|pre: Seq<char>, post: Seq<char>| #![trigger framed(pre, target, post)]
        script == framed(pre, target, post) && ends_with(pre, "var t = "@) && starts_with(post, ";"@)
}

/// Whether `script` fires a key-down and then a key-up event for `key`.
pub open spec fn fires_key(script: Seq<char>, key: Seq<char>) -> bool {
    exists|pre: Seq<char>, mid: Seq<char>, post: Seq<char>|
        #![trigger two_slots(pre, json_string_literal(key), mid, json_string_literal(key), post)]
        script == two_slots(pre, json_string_literal(key), mid, json_string_literal(key), post)
            && ends_with(pre, "new KeyboardEvent(\"keydown\", {key:"@)
            && ends_with(mid, "new KeyboardEvent(\"keyup\", {key:"@)
}

/// Whether `script` calls `scroller` with `x` as its first and `y` as its
/// second argument.
pub open spec fn scrolls_by(script: Seq<char>, scroller: Seq<char>, x: Seq<char>, y: Seq<char>) -> bool {
    exists|pre: Seq<char>, post: Seq<char>| #![trigger two_slots(pre, x, ", "@, y, post)]
        script == two_slots(pre, x, ", "@, y, post) && ends_with(pre, scroller) && starts_with(post, ")"@)
}

/// Whether `script` looks up the element matching `sel`.
pub open spec fn looks_up(script: Seq<char>, sel: Seq<char>) -> bool {
    exists|pre: Seq<char>, post: Seq<char>| #![trigger framed(pre, json_string_literal(sel), post)]
        script == framed(pre, json_string_literal(sel), post)
            && ends_with(pre, "document.querySelector("@) && starts_with(post, ")"@)
}

proof fn lemma_child_in_text(s: Seq<DomNode>, i: int)
    requires
        0 <= i < s.len(),
    ensures
        children_text(s) == children_text(s.take(i)) + node_text(s[i]) + children_text(s.skip(i + 1)),
    decreases i,
{
    let t = s.subrange(1, s.len() as int);
    if i == 0 {
        assert(s.take(0) =~= Seq::<DomNode>::empty());
        assert(t =~= s.skip(1));
        assert(children_text(s) =~= children_text(s.take(0)) + node_text(s[0]) + children_text(s.skip(1)));
    } else {
        lemma_child_in_text(t, i - 1);
        assert(t[i - 1] == s[i]);
        assert(t.skip(i) =~= s.skip(i + 1));
        let p = s.take(i);
        assert(p[0] == s[0]);
        assert(p.subrange(1, p.len() as int) =~= t.take(i - 1));
        assert(children_text(p) == node_text(s[0]) + children_text(t.take(i - 1)));
        assert(children_text(s) =~= children_text(s.take(i)) + node_text(s[i]) + children_text(s.skip(i + 1)));
    }
}

/// The readable text of an element that is not script, style or noscript
/// holds the readable text of its children, each child's text whole.
pub proof fn law_element_text_keeps_each_child(tag: String, children: Vec<DomNode>, i: int)
    requires
        !is_hidden_tag(tag@),
        0 <= i < children@.len(),
    ensures
        holds(node_text(DomNode::Element { tag, children }), node_text(children@[i])),
{
    let cs = children@;
    let e = DomNode::Element { tag, children };
    lemma_child_in_text(cs, i);
    let (p, q) = if is_block_tag(tag@) {
        (seq!['\n'], seq!['\n'])
    } else {
        (Seq::<char>::empty(), Seq::<char>::empty())
    };
    assert(node_text(e) =~= p + children_text(cs) + q);
    let a = p + children_text(cs.take(i));
    let b = children_text(cs.skip(i + 1)) + q;
    assert(node_text(e) =~= framed(a, node_text(cs[i]), b));
}

/// The readable text of an element that is not script, style or noscript
/// keeps its children's texts in document order: an earlier child's text
/// comes before a later child's.
pub proof fn law_element_text_keeps_children_in_order(tag: String, children: Vec<DomNode>, i: int, j: int)
    requires
        !is_hidden_tag(tag@),
        0 <= i < j < children@.len(),
    ensures
        holds_in_order(node_text(DomNode::Element { tag, children }), node_text(children@[i]), node_text(children@[j])),
{
    let cs = children@;
    let e = DomNode::Element { tag, children };
    lemma_child_in_text(cs, i);
    let t = cs.skip(i + 1);
    lemma_child_in_text(t, j - i - 1);
    assert(t[j - i - 1] == cs[j]);
    let (p, q) = if is_block_tag(tag@) {
        (seq!['\n'], seq!['\n'])
    } else {
        (Seq::<char>::empty(), Seq::<char>::empty())
    };
    assert(node_text(e) =~= p + children_text(cs) + q);
    let a = p + children_text(cs.take(i));
    let b = children_text(t.take(j - i - 1));
    let c = children_text(t.skip(j - i)) + q;
    assert(node_text(e) =~= two_slots(a, node_text(cs[i]), b, node_text(cs[j]), c));
}

/// The readable text of a text node holds its contents without the
/// surrounding white space, whenever anything else is left.
pub proof fn law_text_node_keeps_its_words(contents: String)
    requires
        trimmed(contents@).len() > 0,
    ensures
        holds(node_text(DomNode::Text(contents)), trimmed(contents@)),
{
    assert(node_text(DomNode::Text(contents)) =~= framed(Seq::empty(), trimmed(contents@), seq![' ']));
}

/// Script, style and noscript elements give no readable text, whatever they hold.
pub proof fn law_hidden_elements_give_no_text(tag: String, children: Vec<DomNode>)
    requires
        is_hidden_tag(tag@),
    ensures
        node_text(DomNode::Element { tag, children }) == Seq::<char>::empty(),
{
}

proof fn lemma_element_lookup()
    ensures
        ends_with(crate::scripts::ELEMENT_OPEN@, "document.querySelector("@),
{
    reveal_strlit("(function(){\n            var el = document.querySelector(");
    reveal_strlit("document.querySelector(");
    let s = crate::scripts::ELEMENT_OPEN@;
    assert(s.subrange(s.len() - 23, s.len() as int) =~= "document.querySelector("@);
}

/// `browser_fill` runs a script that looks up the element matching the
/// selector and assigns the given value to it: the selector is the argument
/// of `document.querySelector` and the value is what `el.value` is set to.
pub proof fn law_fill_sets_the_selected_value(
    args: JsonV,
    page_open: bool,
    user_agent: Option<Seq<char>>,
    console: Seq<Seq<char>>,
    sel: Seq<char>,
    value: Seq<char>,
)
    requires
        args.str_field("selector"@) == Some(sel),
        args.str_field("value"@) == Some(value),
    ensures
        tool_plan(Tool::Fill, args, page_open, user_agent, console) matches ToolStepV::Browse(BrowserTaskV::RunScript(task))
            && assigns_value(task.script, sel, "el.value = "@, value),
{
    lemma_element_lookup();
    reveal_strlit(");\n            if (!el) return \"error:element not found\";\n            el.value = ");
    reveal_strlit(";\n            el.dispatchEvent(new Event(\"input\", {bubbles:true}));\n            el.dispatchEvent(new Event(\"change\", {bubbles:true}));\n            return \"ok\";\n        })()");
    reveal_strlit("el.value = ");
    reveal_strlit(";");
    let mid = crate::scripts::FILL_MID@;
    let post = crate::scripts::FILL_REST@;
    assert(mid.subrange(mid.len() - 11, mid.len() as int) =~= "el.value = "@);
    assert(post.subrange(0, 1) =~= ";"@);
    let step = tool_plan(Tool::Fill, args, page_open, user_agent, console);
    let script = crate::scripts::fill_script(sel, value);
    assert(script =~= two_slots(crate::scripts::ELEMENT_OPEN@, json_string_literal(sel), mid, json_string_literal(value), post));
}

/// `browser_type` runs a script that looks up the element matching the
/// selector and appends the given text to its value: the new value is the
/// old one (or nothing) followed by the text, never the text alone.
pub proof fn law_type_appends_to_the_value(
    args: JsonV,
    page_open: bool,
    user_agent: Option<Seq<char>>,
    console: Seq<Seq<char>>,
    sel: Seq<char>,
    text: Seq<char>,
)
    requires
        args.str_field("selector"@) == Some(sel),
        args.str_field("text"@) == Some(text),
    ensures
        tool_plan(Tool::Type, args, page_open, user_agent, console) matches ToolStepV::Browse(BrowserTaskV::RunScript(task))
            && assigns_value(task.script, sel, "el.value = (el.value || \"\") + "@, text),
{
    lemma_element_lookup();
    reveal_strlit(");\n            if (!el) return \"error:element not found\";\n            el.value = (el.value || \"\") + ");
    reveal_strlit(";\n            el.dispatchEvent(new Event(\"input\", {bubbles:true}));\n            return \"ok\";\n        })()");
    reveal_strlit("el.value = (el.value || \"\") + ");
    reveal_strlit(";");
    let mid = crate::scripts::TYPE_MID@;
    let post = crate::scripts::TYPE_REST@;
    assert(mid.subrange(mid.len() - 30, mid.len() as int) =~= "el.value = (el.value || \"\") + "@);
    assert(post.subrange(0, 1) =~= ";"@);
    let script = crate::scripts::type_script(sel, text);
    assert(script =~= two_slots(crate::scripts::ELEMENT_OPEN@, json_string_literal(sel), mid, json_string_literal(text), post));
}

/// `browser_press_key` fires key-down and then key-up for the given key, on
/// the element matching the selector when one is given, and on the document
/// only when none is.
pub proof fn law_press_key_targets_the_selected_element(
    args: JsonV,
    page_open: bool,
    user_agent: Option<Seq<char>>,
    console: Seq<Seq<char>>,
    key: Seq<char>,
)
    requires
        args.str_field("key"@) == Some(key),
    ensures
        tool_plan(Tool::PressKey, args, page_open, user_agent, console) matches ToolStepV::Browse(BrowserTaskV::RunScript(task))
            && fires_key(task.script, key)
            && match args.str_field("selector"@) {
                Some(s) => key_events_target(task.script, "document.querySelector("@ + json_string_literal(s) + ")"@),
                None => key_events_target(task.script, "document"@),
            },
{
    reveal_strlit("(function(){\n            var t = ");
    reveal_strlit(";\n            if (!t) return \"error:element not found\";\n            t.dispatchEvent(new KeyboardEvent(\"keydown\", {key:");
    reveal_strlit(",bubbles:true}));\n            t.dispatchEvent(new KeyboardEvent(\"keyup\", {key:");
    reveal_strlit("var t = ");
    reveal_strlit(";");
    reveal_strlit("new KeyboardEvent(\"keydown\", {key:");
    reveal_strlit("new KeyboardEvent(\"keyup\", {key:");
    let open = crate::scripts::PRESS_OPEN@;
    let down = crate::scripts::PRESS_DOWN@;
    let up = crate::scripts::PRESS_UP@;
    let rest = crate::scripts::PRESS_REST@;
    let target = crate::scripts::key_target(args.str_field("selector"@));
    let q = json_string_literal(key);
    assert(open.subrange(open.len() - 8, open.len() as int) =~= "var t = "@);
    let after = down + q + up + q + rest;
    assert(after.subrange(0, 1) =~= ";"@);
    let script = crate::scripts::press_key_script(key, args.str_field("selector"@));
    assert(script =~= framed(open, target, after));
    let pre = open + target + down;
    assert(pre.subrange(pre.len() - 34, pre.len() as int) =~= "new KeyboardEvent(\"keydown\", {key:"@);
    assert(up.subrange(up.len() - 32, up.len() as int) =~= "new KeyboardEvent(\"keyup\", {key:"@);
    assert(script =~= two_slots(pre, q, up, q, rest));
}

/// `browser_scroll` scrolls by the offsets it reports: the `x` offset is the
/// first argument of `scrollBy` and the `y` offset the second, on the
/// element matching the selector when one is given and on the window when
/// none is.
pub proof fn law_scroll_moves_by_the_reported_offsets(
    args: JsonV,
    page_open: bool,
    user_agent: Option<Seq<char>>,
    console: Seq<Seq<char>>,
)
    ensures
        ({
            let x = args.shown_field("x"@, "0"@);
            let y = args.shown_field("y"@, "0"@);
            tool_plan(Tool::Scroll, args, page_open, user_agent, console) matches ToolStepV::Browse(BrowserTaskV::RunScript(task))
                && task.done == "Scrolled by ("@ + x + ", "@ + y + ")"@
                && match args.str_field("selector"@) {
                    Some(s) => looks_up(task.script, s) && scrolls_by(task.script, "el.scrollBy("@, x, y),
                    None => scrolls_by(task.script, "window.scrollBy("@, x, y),
                }
        }),
{
    reveal_strlit("(function(){\n                var el = document.querySelector(");
    reveal_strlit(");\n                if (!el) return \"error:element not found\";\n                el.scrollBy(");
    reveal_strlit(");\n                return \"ok\";\n            })()");
    reveal_strlit("(function(){ window.scrollBy(");
    reveal_strlit("); return \"ok\"; })()");
    reveal_strlit("document.querySelector(");
    reveal_strlit("el.scrollBy(");
    reveal_strlit("window.scrollBy(");
    reveal_strlit(")");
    reveal_strlit(", ");
    let x = args.shown_field("x"@, "0"@);
    let y = args.shown_field("y"@, "0"@);
    let script = crate::scripts::scroll_script(args.str_field("selector"@), x, y);
    match args.str_field("selector"@) {
        Some(s) => {
            let open = crate::scripts::SCROLL_OPEN@;
            let mid = crate::scripts::SCROLL_MID@;
            let rest = crate::scripts::SCROLL_REST@;
            let q = json_string_literal(s);
            assert(open.subrange(open.len() - 23, open.len() as int) =~= "document.querySelector("@);
            let after = mid + x + ", "@ + y + rest;
            assert(after.subrange(0, 1) =~= ")"@);
            assert(script =~= framed(open, q, after));
            let pre = open + q + mid;
            assert(pre.subrange(pre.len() - 12, pre.len() as int) =~= "el.scrollBy("@);
            assert(rest.subrange(0, 1) =~= ")"@);
            assert(script =~= two_slots(pre, x, ", "@, y, rest));
        },
        None => {
            let open = crate::scripts::WINDOW_SCROLL_OPEN@;
            let rest = crate::scripts::WINDOW_SCROLL_REST@;
            assert(open.subrange(open.len() - 16, open.len() as int) =~= "window.scrollBy("@);
            assert(rest.subrange(0, 1) =~= ")"@);
            assert(script =~= two_slots(open, x, ", "@, y, rest));
        },
    }
}

/// `browser_snapshot` reports the page's URL on the first line, its title on
/// the second, and ends with the readable text of the body.
pub proof fn law_snapshot_reports_url_title_and_body_text(url: Seq<char>, title: Seq<char>, body: DomNode)
    ensures
        starts_with(snapshot_text(url, title, Some(body)), "URL: "@ + url + "\n"@),
        holds(snapshot_text(url, title, Some(body)), "\nTitle: "@ + title + "\n"@),
        ends_with(snapshot_text(url, title, Some(body)), trimmed(node_text(body))),
{
    reveal_strlit("URL: ");
    reveal_strlit("\nTitle: ");
    reveal_strlit("\n\n");
    reveal_strlit("\n");
    reveal_strlit("Title: ");
    let r = snapshot_text(url, title, Some(body));
    let head = "URL: "@ + url + "\n"@;
    let t = trimmed(node_text(body));
    assert(r =~= head + ("Title: "@ + title + "\n\n"@ + t));
    assert(r.subrange(0, head.len() as int) =~= head);
    assert(r =~= framed("URL: "@ + url, "\nTitle: "@ + title + "\n"@, "\n"@ + t));
    assert(r.subrange(r.len() - t.len(), r.len() as int) =~= t);
}

/// `browser_click` and `browser_hover` act on the element matching the
/// selector, and report that selector when the page has no such element.
pub proof fn law_click_and_hover_target_the_selected_element(
    args: JsonV,
    page_open: bool,
    user_agent: Option<Seq<char>>,
    console: Seq<Seq<char>>,
    sel: Seq<char>,
)
    requires
        args.str_field("selector"@) == Some(sel),
    ensures
        tool_plan(Tool::Click, args, page_open, user_agent, console) matches ToolStepV::Browse(BrowserTaskV::RunScript(task))
            && looks_up(task.script, sel) && task.element_missing == Some("Element not found: "@ + sel),
        tool_plan(Tool::Hover, args, page_open, user_agent, console) matches ToolStepV::Browse(BrowserTaskV::RunScript(task))
            && looks_up(task.script, sel) && task.element_missing == Some("Element not found: "@ + sel),
{
    lemma_element_lookup();
    reveal_strlit(")");
    reveal_strlit(");\n            if (!el) return \"error:element not found\";\n            el.click();\n            return \"ok\";\n        })()");
    reveal_strlit(");\n            if (!el) return \"error:element not found\";\n            el.dispatchEvent(new MouseEvent(\"mouseover\", {bubbles:true}));\n            el.dispatchEvent(new MouseEvent(\"mouseenter\", {bubbles:true}));\n            el.dispatchEvent(new MouseEvent(\"mousemove\", {bubbles:true}));\n            return \"ok\";\n        })()");
    let open = crate::scripts::ELEMENT_OPEN@;
    let click_rest = crate::scripts::CLICK_REST@;
    let hover_rest = crate::scripts::HOVER_REST@;
    assert(click_rest.subrange(0, 1) =~= ")"@);
    assert(hover_rest.subrange(0, 1) =~= ")"@);
    assert(crate::scripts::click_script(sel) =~= framed(open, json_string_literal(sel), click_rest));
    assert(crate::scripts::hover_script(sel) =~= framed(open, json_string_literal(sel), hover_rest));
}

/// `browser_select_option` picks, in the select element matching the
/// selector, the option whose value or whose text is the given value.
pub proof fn law_select_option_matches_value_or_text(
    args: JsonV,
    page_open: bool,
    user_agent: Option<Seq<char>>,
    console: Seq<Seq<char>>,
    sel: Seq<char>,
    value: Seq<char>,
)
    requires
        args.str_field("selector"@) == Some(sel),
        args.str_field("value"@) == Some(value),
    ensures
        tool_plan(Tool::SelectOption, args, page_open, user_agent, console) matches ToolStepV::Browse(BrowserTaskV::RunScript(task))
            && looks_up(task.script, sel)
            && task.option_missing == Some("Option not found: "@ + value)
            && exists|pre: Seq<char>, mid: Seq<char>, post: Seq<char>|
                #![trigger two_slots(pre, json_string_literal(value), mid, json_string_literal(value), post)]
                task.script == two_slots(pre, json_string_literal(value), mid, json_string_literal(value), post)
                    && ends_with(pre, "o.value === "@) && ends_with(mid, "o.text === "@),
{
    lemma_element_lookup();
    reveal_strlit(")");
    reveal_strlit("o.value === ");
    reveal_strlit("o.text === ");
    reveal_strlit(");\n            if (!el) return \"error:element not found\";\n            var opts = Array.from(el.options);\n            var opt = opts.find(function(o){ return o.value === ");
    reveal_strlit(" || o.text === ");
    let open = crate::scripts::ELEMENT_OPEN@;
    let mid = crate::scripts::SELECT_MID@;
    let or = crate::scripts::SELECT_OR@;
    let rest = crate::scripts::SELECT_REST@;
    let qs = json_string_literal(sel);
    let qv = json_string_literal(value);
    let script = crate::scripts::select_script(sel, value);
    let after = mid + qv + or + qv + rest;
    assert(after.subrange(0, 1) =~= ")"@);
    assert(script =~= framed(open, qs, after));
    let pre = open + qs + mid;
    assert(pre.subrange(pre.len() - 12, pre.len() as int) =~= "o.value === "@);
    assert(or.subrange(or.len() - 11, or.len() as int) =~= "o.text === "@);
    assert(script =~= two_slots(pre, qv, or, qv, rest));
}

/// `browser_file_input` sets, on the file input matching the selector, the
/// files named in the given list, in order.
pub proof fn law_file_input_sets_the_named_files(
    args: JsonV,
    page_open: bool,
    user_agent: Option<Seq<char>>,
    console: Seq<Seq<char>>,
    sel: Seq<char>,
    files: Seq<Seq<char>>,
)
    requires
        args.str_field("selector"@) == Some(sel),
        args.strings_field("files"@) == Some(files),
    ensures
        tool_plan(Tool::FileInput, args, page_open, user_agent, console) matches ToolStepV::Browse(BrowserTaskV::RunScript(task))
            && looks_up(task.script, sel)
            && holds(task.script, "var files = "@ + json_string_array(files) + ";"@),
{
    lemma_element_lookup();
    reveal_strlit(")");
    reveal_strlit("var files = ");
    reveal_strlit(";");
    reveal_strlit(");\n            if (!el) return \"error:element not found\";\n            // Simulate setting files. Real file setting requires CDP/Playwright, but we can try to set a mock file or just trigger change\n            var dt = new DataTransfer();\n            var files = ");
    reveal_strlit(";\n            for (var i = 0; i < files.length; i++) {\n                dt.items.add(new File([\"\"], files[i]));\n            }\n            el.files = dt.files;\n            el.dispatchEvent(new Event(\"change\", {bubbles:true}));\n            return \"ok\";\n        })()");
    let open = crate::scripts::ELEMENT_OPEN@;
    let mid = crate::scripts::FILES_MID@;
    let rest = crate::scripts::FILES_REST@;
    let qs = json_string_literal(sel);
    let qf = json_string_array(files);
    let script = crate::scripts::file_input_script(sel, files);
    let after = mid + qf + rest;
    assert(after.subrange(0, 1) =~= ")"@);
    assert(script =~= framed(open, qs, after));
    let m = mid.len();
    let a = open + qs + mid.subrange(0, m - 12);
    assert(mid.subrange(m - 12, m as int) =~= "var files = "@);
    assert(script =~= framed(a, "var files = "@ + qf + ";"@, rest.subrange(1, rest.len() as int)));
}

} // verus!
