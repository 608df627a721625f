use da_harness::extract_json;
use da_harness::text::{decimal_text, final_segment, is_whitespace, removed, trimmed};

#[test]
fn fenced_json_is_extracted() {
    assert_eq!(extract_json("```json\n{\"a\": 1}\n```"), "{\"a\": 1}");
    assert_eq!(extract_json("```\n{\"a\": 1}\n```"), "{\"a\": 1}");
    assert_eq!(extract_json("```JSON {\"a\": 1}```"), "{\"a\": 1}");
    assert_eq!(extract_json("```Json\n\n  {}  \n\n```\nbye"), "{}");
    assert_eq!(extract_json("  ```   json\t[1]\n```"), "[1]");
    assert_eq!(extract_json("Here you are:\n```json\n[]\n```\n"), "[]");
}

#[test]
fn unfenced_text_is_trimmed() {
    assert_eq!(extract_json("  {\"a\": 1}\n"), "{\"a\": 1}");
    assert_eq!(extract_json(""), "");
    assert_eq!(extract_json(" \u{3000}\u{a0}x\u{2028} "), "x");
}

#[test]
fn unclosed_fence_takes_the_rest() {
    assert_eq!(extract_json("```json\n{\"a\": 1}\n"), "{\"a\": 1}");
    assert_eq!(extract_json("```"), "");
    assert_eq!(extract_json("```js"), "js");
    assert_eq!(extract_json("```json"), "");
}

#[test]
fn other_languages_are_kept() {
    assert_eq!(extract_json("```yaml\na: 1\n```"), "yaml\na: 1");
    assert_eq!(extract_json("```jsonc\n{}\n```"), "c\n{}");
}

#[test]
fn first_fence_counts() {
    assert_eq!(extract_json("```json\n1\n``` and ```json\n2\n```"), "1");
    assert_eq!(extract_json("``````"), "");
}

#[test]
fn characters_of_any_width_may_follow_a_fence() {
    assert_eq!(extract_json("```\n{\"日\":1}\n```"), "{\"日\":1}");
    assert_eq!(extract_json("```json\n{\"日\":1}\n```"), "{\"日\":1}");
    assert_eq!(extract_json("```abcé"), "abcé");
    assert_eq!(extract_json("```ab€"), "ab€");
    assert_eq!(extract_json("```a😀```"), "a😀");
    assert_eq!(extract_json("```😀"), "😀");
    assert_eq!(extract_json("text ``` é€"), "é€");
    assert_eq!(extract_json("```abé x```"), "abé x");
    assert_eq!(extract_json("```jsonéé"), "éé");
}

#[test]
fn block_is_extracted_from_its_surroundings() {
    assert_eq!(
        extract_json(" Sure:\n```  jSoN\n{\"a\": \"`b``\"}\n```\nDone. ```x``` "),
        "{\"a\": \"`b``\"}"
    );
    assert_eq!(extract_json("so `this`: ```\n [1] \n``` and more"), "[1]");
    assert_eq!(extract_json("see ```JSON\n [1]\n\n"), "[1]");
    assert_eq!(extract_json("```json\n  \n```"), "");
}

#[test]
fn extraction_is_done_once() {
    for text in [
        "",
        " x ",
        "```json\n[1]\n```",
        "a ```b``` c",
        "```json [",
        "```\njson json\n```",
        "````` `",
    ] {
        let found = extract_json(text);
        assert_eq!(extract_json(found), found);
    }
}

#[test]
fn whitespace_is_that_of_the_standard_library() {
    for c in '\u{0}'..=char::MAX {
        assert_eq!(is_whitespace(c), c.is_whitespace(), "{:?}", c);
    }
}

#[test]
fn texts_are_cut_as_by_the_standard_library() {
    for s in ["", "a", " a ", "\t\n", "a b ", "\u{85}x\u{205f}"] {
        assert_eq!(trimmed(s), s.trim());
    }
    for s in ["", "ab", "abab", "aabb", "xabyabz", "aab", "ba"] {
        assert_eq!(removed(s, "ab"), s.replace("ab", ""));
        assert_eq!(removed(s, "aa"), s.replace("aa", ""));
    }
    assert_eq!(removed("aabb", "ab"), "ab");
    for s in ["", "A", "a::B", "a::b::C", "a:::B", "a::", "::", "a:b", "alloc::vec::Vec<u8>"] {
        assert_eq!(final_segment(s), s.rsplit("::").next().unwrap());
    }
    for n in [0, 9, 10, 42, 100, 12345, usize::MAX] {
        assert_eq!(decimal_text(n), n.to_string());
    }
}
