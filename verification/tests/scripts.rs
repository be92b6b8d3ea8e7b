use obscura_mcp::scripts::{click, file_input, fill, hover, press_key, scroll, select_option, type_text};

#[test]
fn click_script_text() {
    assert_eq!(
        click("#go"),
        "(function(){\n            var el = document.querySelector(\"#go\");\n            if (!el) return \"error:element not found\";\n            el.click();\n            return \"ok\";\n        })()"
    );
}

#[test]
fn click_script_escapes_the_selector() {
    assert_eq!(
        click("a[title=\"x\\y\"]\n\u{1}"),
        "(function(){\n            var el = document.querySelector(\"a[title=\\\"x\\\\y\\\"]\\n\\u0001\");\n            if (!el) return \"error:element not found\";\n            el.click();\n            return \"ok\";\n        })()"
    );
}

#[test]
fn fill_script_text() {
    assert_eq!(
        fill("#name", "Ann \"A\" Lee"),
        "(function(){\n            var el = document.querySelector(\"#name\");\n            if (!el) return \"error:element not found\";\n            el.value = \"Ann \\\"A\\\" Lee\";\n            el.dispatchEvent(new Event(\"input\", {bubbles:true}));\n            el.dispatchEvent(new Event(\"change\", {bubbles:true}));\n            return \"ok\";\n        })()"
    );
}

#[test]
fn type_script_text() {
    assert_eq!(
        type_text("#q", "hello"),
        "(function(){\n            var el = document.querySelector(\"#q\");\n            if (!el) return \"error:element not found\";\n            el.value = (el.value || \"\") + \"hello\";\n            el.dispatchEvent(new Event(\"input\", {bubbles:true}));\n            return \"ok\";\n        })()"
    );
}

#[test]
fn press_key_script_on_an_element() {
    assert_eq!(
        press_key("Enter", Some("#q")),
        "(function(){\n            var t = document.querySelector(\"#q\");\n            if (!t) return \"error:element not found\";\n            t.dispatchEvent(new KeyboardEvent(\"keydown\", {key:\"Enter\",bubbles:true}));\n            t.dispatchEvent(new KeyboardEvent(\"keyup\", {key:\"Enter\",bubbles:true}));\n            return \"ok\";\n        })()"
    );
}

#[test]
fn press_key_script_on_the_document() {
    assert_eq!(
        press_key("Tab", None),
        "(function(){\n            var t = document;\n            if (!t) return \"error:element not found\";\n            t.dispatchEvent(new KeyboardEvent(\"keydown\", {key:\"Tab\",bubbles:true}));\n            t.dispatchEvent(new KeyboardEvent(\"keyup\", {key:\"Tab\",bubbles:true}));\n            return \"ok\";\n        })()"
    );
}

#[test]
fn select_option_script_text() {
    assert_eq!(
        select_option("#c", "red"),
        "(function(){\n            var el = document.querySelector(\"#c\");\n            if (!el) return \"error:element not found\";\n            var opts = Array.from(el.options);\n            var opt = opts.find(function(o){ return o.value === \"red\" || o.text === \"red\"; });\n            if (!opt) return \"error:option not found\";\n            el.value = opt.value;\n            el.dispatchEvent(new Event(\"change\", {bubbles:true}));\n            return \"ok\";\n        })()"
    );
}

#[test]
fn hover_script_text() {
    assert_eq!(
        hover(".m"),
        "(function(){\n            var el = document.querySelector(\".m\");\n            if (!el) return \"error:element not found\";\n            el.dispatchEvent(new MouseEvent(\"mouseover\", {bubbles:true}));\n            el.dispatchEvent(new MouseEvent(\"mouseenter\", {bubbles:true}));\n            el.dispatchEvent(new MouseEvent(\"mousemove\", {bubbles:true}));\n            return \"ok\";\n        })()"
    );
}

#[test]
fn scroll_script_on_an_element() {
    assert_eq!(
        scroll(Some("#list"), "0", "250"),
        "(function(){\n                var el = document.querySelector(\"#list\");\n                if (!el) return \"error:element not found\";\n                el.scrollBy(0, 250);\n                return \"ok\";\n            })()"
    );
}

#[test]
fn scroll_script_on_the_window() {
    assert_eq!(scroll(None, "1.5", "-3"), "(function(){ window.scrollBy(1.5, -3); return \"ok\"; })()");
}

#[test]
fn file_input_script_text() {
    assert_eq!(
        file_input("#f", &vec!["a.txt".to_string(), "b \"c\".pdf".to_string()]),
        "(function(){\n            var el = document.querySelector(\"#f\");\n            if (!el) return \"error:element not found\";\n            // Simulate setting files. Real file setting requires CDP/Playwright, but we can try to set a mock file or just trigger change\n            var dt = new DataTransfer();\n            var files = [\"a.txt\",\"b \\\"c\\\".pdf\"];\n            for (var i = 0; i < files.length; i++) {\n                dt.items.add(new File([\"\"], files[i]));\n            }\n            el.files = dt.files;\n            el.dispatchEvent(new Event(\"change\", {bubbles:true}));\n            return \"ok\";\n        })()"
    );
}

#[test]
fn file_input_script_with_no_files() {
    assert_eq!(
        file_input("#f", &Vec::new()),
        "(function(){\n            var el = document.querySelector(\"#f\");\n            if (!el) return \"error:element not found\";\n            // Simulate setting files. Real file setting requires CDP/Playwright, but we can try to set a mock file or just trigger change\n            var dt = new DataTransfer();\n            var files = [];\n            for (var i = 0; i < files.length; i++) {\n                dt.items.add(new File([\"\"], files[i]));\n            }\n            el.files = dt.files;\n            el.dispatchEvent(new Event(\"change\", {bubbles:true}));\n            return \"ok\";\n        })()"
    );
}
