use utage_vn::num::{parse_milli, parse_u32, Milli};
use utage_vn::table::Table;
use utage_vn::text::normalize;
use utage_vn::utage4::{parse_chapter, VNConfig};

#[test]
fn tag_normalization_substitutes_and_strips() {
    let params: Table<String> = Table::new().insert("score".to_string(), "42".to_string());
    let cfg = VNConfig::default();
    let out = normalize("A<interval=1>B<param=score>C<unknown>D", &params, &cfg);
    assert_eq!(out, "A……B42CD");
}

#[test]
fn param_tag_falls_back_to_chapter_table() {
    let doc = r#"{"settingList":[{"name":"cfg_param.xlsx:Param","headerRow":0,"rows":[
        {"strings":["Label","Value"],"isCommentOut":0},
        {"strings":["hero","Alice"],"isCommentOut":0}]}]}"#;
    let cfg = parse_chapter(doc.to_string());
    let params: Table<String> = Table::new();
    assert_eq!(normalize("<param=hero>!", &params, &cfg), "Alice!");

    // a runtime binding overrides the chapter table
    let params = params.insert("hero".to_string(), "Bob".to_string());
    assert_eq!(normalize("<param=hero>!", &params, &cfg), "Bob!");
}

#[test]
fn unresolved_and_empty_param_tags_vanish() {
    let params: Table<String> = Table::new();
    let cfg = VNConfig::default();
    assert_eq!(normalize("x<param=missing>y", &params, &cfg), "xy");
    assert_eq!(normalize("x<param=>y", &params, &cfg), "xy");
}

#[test]
fn unclosed_tag_passes_through() {
    let params: Table<String> = Table::new();
    let cfg = VNConfig::default();
    assert_eq!(normalize("a<b", &params, &cfg), "a<b");
    assert_eq!(normalize("<", &params, &cfg), "<");
}

#[test]
fn text_outside_tags_is_unchanged() {
    let params: Table<String> = Table::new();
    let cfg = VNConfig::default();
    assert_eq!(normalize("plain words", &params, &cfg), "plain words");
    assert_eq!(normalize("", &params, &cfg), "");
}

#[test]
fn parse_milli_reads_decimals() {
    assert_eq!(parse_milli("2.0"), Some(Milli(2000)));
    assert_eq!(parse_milli("0.1"), Some(Milli(100)));
    assert_eq!(parse_milli("-46.5"), Some(Milli(-46500)));
    assert_eq!(parse_milli("+3"), Some(Milli(3000)));
    assert_eq!(parse_milli("1."), Some(Milli(1000)));
    assert_eq!(parse_milli("0.1234"), Some(Milli(123)));
}

#[test]
fn parse_milli_rejects_garbage() {
    assert_eq!(parse_milli("notanumber"), None);
    assert_eq!(parse_milli(""), None);
    assert_eq!(parse_milli("-"), None);
    assert_eq!(parse_milli("1.2.3"), None);
    assert_eq!(parse_milli("1e3"), None);
}

#[test]
fn parse_u32_reads_counts() {
    assert_eq!(parse_u32("3"), Some(3));
    assert_eq!(parse_u32("0009"), Some(9));
    assert_eq!(parse_u32("4294967295"), Some(u32::MAX));
    assert_eq!(parse_u32("4294967296"), None);
    assert_eq!(parse_u32(""), None);
    assert_eq!(parse_u32("-1"), None);
}
