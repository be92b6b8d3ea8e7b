use vstd::prelude::*;
use vstd::string::*;
use crate::encode::{json_string_array, json_string_literal, to_json_string, to_json_string_array};
use crate::text::views;

verus! {

/// Opens an element script: looks up the element by the selector that follows.
pub const ELEMENT_OPEN: &'static str = "(function(){\n            var el = document.querySelector(";

/// Finishes the click script.
pub const CLICK_REST: &'static str = ");\n            if (!el) return \"error:element not found\";\n            el.click();\n            return \"ok\";\n        })()";

/// Between the selector and the value in the fill script.
pub const FILL_MID: &'static str = ");\n            if (!el) return \"error:element not found\";\n            el.value = ";

/// Finishes the fill script.
pub const FILL_REST: &'static str = ";\n            el.dispatchEvent(new Event(\"input\", {bubbles:true}));\n            el.dispatchEvent(new Event(\"change\", {bubbles:true}));\n            return \"ok\";\n        })()";

/// Between the selector and the text in the type script.
pub const TYPE_MID: &'static str = ");\n            if (!el) return \"error:element not found\";\n            el.value = (el.value || \"\") + ";

/// Finishes the type script.
pub const TYPE_REST: &'static str = ";\n            el.dispatchEvent(new Event(\"input\", {bubbles:true}));\n            return \"ok\";\n        })()";

/// Finishes the hover script.
pub const HOVER_REST: &'static str = ");\n            if (!el) return \"error:element not found\";\n            el.dispatchEvent(new MouseEvent(\"mouseover\", {bubbles:true}));\n            el.dispatchEvent(new MouseEvent(\"mouseenter\", {bubbles:true}));\n            el.dispatchEvent(new MouseEvent(\"mousemove\", {bubbles:true}));\n            return \"ok\";\n        })()";

/// Between the selector and the first copy of the value in the select script.
pub const SELECT_MID: &'static str = ");\n            if (!el) return \"error:element not found\";\n            var opts = Array.from(el.options);\n            var opt = opts.find(function(o){ return o.value === ";

/// Between the two copies of the value in the select script.
pub const SELECT_OR: &'static str = " || o.text === ";

/// Finishes the select script.
pub const SELECT_REST: &'static str = "; });\n            if (!opt) return \"error:option not found\";\n            el.value = opt.value;\n            el.dispatchEvent(new Event(\"change\", {bubbles:true}));\n            return \"ok\";\n        })()";

/// Between the selector and the file list in the file input script.
pub const FILES_MID: &'static str = ");\n            if (!el) return \"error:element not found\";\n            // Simulate setting files. Real file setting requires CDP/Playwright, but we can try to set a mock file or just trigger change\n            var dt = new DataTransfer();\n            var files = ";

/// Finishes the file input script.
pub const FILES_REST: &'static str = ";\n            for (var i = 0; i < files.length; i++) {\n                dt.items.add(new File([\"\"], files[i]));\n            }\n            el.files = dt.files;\n            el.dispatchEvent(new Event(\"change\", {bubbles:true}));\n            return \"ok\";\n        })()";

/// Opens the element scroll script.
pub const SCROLL_OPEN: &'static str = "(function(){\n                var el = document.querySelector(";

/// Between the selector and the offsets in the element scroll script.
pub const SCROLL_MID: &'static str = ");\n                if (!el) return \"error:element not found\";\n                el.scrollBy(";

/// Finishes the element scroll script.
pub const SCROLL_REST: &'static str = ");\n                return \"ok\";\n            })()";

/// Opens the window scroll script.
pub const WINDOW_SCROLL_OPEN: &'static str = "(function(){ window.scrollBy(";

/// Finishes the window scroll script.
pub const WINDOW_SCROLL_REST: &'static str = "); return \"ok\"; })()";

/// Opens the key press script: the target follows.
pub const PRESS_OPEN: &'static str = "(function(){\n            var t = ";

/// Between the target and the key in the key-down event.
pub const PRESS_DOWN: &'static str = ";\n            if (!t) return \"error:element not found\";\n            t.dispatchEvent(new KeyboardEvent(\"keydown\", {key:";

/// Between the key-down key and the key-up key.
pub const PRESS_UP: &'static str = ",bubbles:true}));\n            t.dispatchEvent(new KeyboardEvent(\"keyup\", {key:";

/// Finishes the key press script.
pub const PRESS_REST: &'static str = ",bubbles:true}));\n            return \"ok\";\n        })()";

/// `s` as a JSON string literal, the form in which values are embedded in scripts.
pub fn quoted(s: &str) -> (r: String)
    ensures
        r@ == json_string_literal(s@),
{
    match to_json_string(s) {
        Some(q) => q,
        None => String::from_str("\"\""),
    }
}

/// A list of strings as a JSON array literal.
pub fn quoted_list(items: &Vec<String>) -> (r: String)
    ensures
        r@ == json_string_array(views(items@)),
{
    match to_json_string_array(items) {
        Some(q) => q,
        None => String::from_str("[]"),
    }
}

/// Clicks the element matching `sel`.
pub open spec fn click_script(sel: Seq<char>) -> Seq<char> {
    ELEMENT_OPEN@ + json_string_literal(sel) + CLICK_REST@
}

/// Sets the value of the element matching `sel` and fires `input` and `change`.
pub open spec fn fill_script(sel: Seq<char>, value: Seq<char>) -> Seq<char> {
    ELEMENT_OPEN@ + json_string_literal(sel) + FILL_MID@ + json_string_literal(value) + FILL_REST@
}

/// Appends `text` to the value of the element matching `sel` and fires `input`.
pub open spec fn type_script(sel: Seq<char>, text: Seq<char>) -> Seq<char> {
    ELEMENT_OPEN@ + json_string_literal(sel) + TYPE_MID@ + json_string_literal(text) + TYPE_REST@
}

/// Fires the mouse-over events on the element matching `sel`.
pub open spec fn hover_script(sel: Seq<char>) -> Seq<char> {
    ELEMENT_OPEN@ + json_string_literal(sel) + HOVER_REST@
}

/// Selects the option whose value or text is `value` in the select element matching `sel`.
pub open spec fn select_script(sel: Seq<char>, value: Seq<char>) -> Seq<char> {
    ELEMENT_OPEN@ + json_string_literal(sel) + SELECT_MID@ + json_string_literal(value) + SELECT_OR@
        + json_string_literal(value) + SELECT_REST@
}

/// Sets the files named `files` on the file input matching `sel`.
pub open spec fn file_input_script(sel: Seq<char>, files: Seq<Seq<char>>) -> Seq<char> {
    ELEMENT_OPEN@ + json_string_literal(sel) + FILES_MID@ + json_string_array(files) + FILES_REST@
}

/// Scrolls the element matching `sel`, or the window, by the offsets `x` and `y`.
pub open spec fn scroll_script(sel: Option<Seq<char>>, x: Seq<char>, y: Seq<char>) -> Seq<char> {
    match sel {
        Some(s) => SCROLL_OPEN@ + json_string_literal(s) + SCROLL_MID@ + x + ", "@ + y + SCROLL_REST@,
        None => WINDOW_SCROLL_OPEN@ + x + ", "@ + y + WINDOW_SCROLL_REST@,
    }
}

/// The target of a key press: the element matching `sel`, or the document.
pub open spec fn key_target(sel: Option<Seq<char>>) -> Seq<char> {
    match sel {
        Some(s) => "document.querySelector("@ + json_string_literal(s) + ")"@,
        None => "document"@,
    }
}

/// Fires key-down and key-up for `key` on the target.
pub open spec fn press_key_script(key: Seq<char>, sel: Option<Seq<char>>) -> Seq<char> {
    PRESS_OPEN@ + key_target(sel) + PRESS_DOWN@ + json_string_literal(key) + PRESS_UP@
        + json_string_literal(key) + PRESS_REST@
}

/// The script of `browser_click`.
pub fn click(sel: &str) -> (r: String)
    ensures
        r@ == click_script(sel@),
{
    let mut s = String::from_str(ELEMENT_OPEN);
    s.append(quoted(sel).as_str());
    s.append(CLICK_REST);
    s
}

/// The script of `browser_fill`.
pub fn fill(sel: &str, value: &str) -> (r: String)
    ensures
        r@ == fill_script(sel@, value@),
{
    let mut s = String::from_str(ELEMENT_OPEN);
    s.append(quoted(sel).as_str());
    s.append(FILL_MID);
    s.append(quoted(value).as_str());
    s.append(FILL_REST);
    s
}

/// The script of `browser_type`.
pub fn type_text(sel: &str, text: &str) -> (r: String)
    ensures
        r@ == type_script(sel@, text@),
{
    let mut s = String::from_str(ELEMENT_OPEN);
    s.append(quoted(sel).as_str());
    s.append(TYPE_MID);
    s.append(quoted(text).as_str());
    s.append(TYPE_REST);
    s
}

/// The script of `browser_hover`.
pub fn hover(sel: &str) -> (r: String)
    ensures
        r@ == hover_script(sel@),
{
    let mut s = String::from_str(ELEMENT_OPEN);
    s.append(quoted(sel).as_str());
    s.append(HOVER_REST);
    s
}

/// The script of `browser_select_option`.
pub fn select_option(sel: &str, value: &str) -> (r: String)
    ensures
        r@ == select_script(sel@, value@),
{
    let q = quoted(value);
    let mut s = String::from_str(ELEMENT_OPEN);
    s.append(quoted(sel).as_str());
    s.append(SELECT_MID);
    s.append(q.as_str());
    s.append(SELECT_OR);
    s.append(q.as_str());
    s.append(SELECT_REST);
    s
}

/// The script of `browser_file_input`.
pub fn file_input(sel: &str, files: &Vec<String>) -> (r: String)
    ensures
        r@ == file_input_script(sel@, views(files@)),
{
    let mut s = String::from_str(ELEMENT_OPEN);
    s.append(quoted(sel).as_str());
    s.append(FILES_MID);
    s.append(quoted_list(files).as_str());
    s.append(FILES_REST);
    s
}

/// The script of `browser_scroll`.
pub fn scroll(sel: Option<&str>, x: &str, y: &str) -> (r: String)
    ensures
        r@ == scroll_script(
            match sel {
                Some(s) => Some(s@),
                None => None,
            },
            x@,
            y@,
        ),
{
    match sel {
        Some(sel) => {
            let mut s = String::from_str(SCROLL_OPEN);
            s.append(quoted(sel).as_str());
            s.append(SCROLL_MID);
            s.append(x);
            s.append(", ");
            s.append(y);
            s.append(SCROLL_REST);
            s
        },
        None => {
            let mut s = String::from_str(WINDOW_SCROLL_OPEN);
            s.append(x);
            s.append(", ");
            s.append(y);
            s.append(WINDOW_SCROLL_REST);
            s
        },
    }
}

/// The script of `browser_press_key`.
pub fn press_key(key: &str, sel: Option<&str>) -> (r: String)
    ensures
        r@ == press_key_script(
            key@,
            match sel {
                Some(s) => Some(s@),
                None => None,
            },
        ),
{
    let target = match sel {
        Some(sel) => {
            let mut t = String::from_str("document.querySelector(");
            t.append(quoted(sel).as_str());
            t.append(")");
            t
        },
        None => String::from_str("document"),
    };
    let q = quoted(key);
    let mut s = String::from_str(PRESS_OPEN);
    s.append(target.as_str());
    s.append(PRESS_DOWN);
    s.append(q.as_str());
    s.append(PRESS_UP);
    s.append(q.as_str());
    s.append(PRESS_REST);
    s
}

} // verus!
