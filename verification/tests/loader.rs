use utage_vn::utage4::{parse_book, parse_chapter, Node};

fn chapter_doc(rows: &str) -> String {
    format!(
        r#"{{"settingList":[{{"name":"cfg_character.xlsx:Character","headerRow":0,"rows":[{}]}}]}}"#,
        rows
    )
}

#[test]
fn invalid_json_gives_empty_chapter() {
    let cfg = parse_chapter("{ not json".to_string());
    assert_eq!(cfg.character.len(), 0);
    assert_eq!(cfg.layer.len(), 0);
    assert_eq!(cfg.param.len(), 0);
    assert_eq!(cfg.sound.len(), 0);
    assert_eq!(cfg.texture.len(), 0);
}

#[test]
fn invalid_json_gives_empty_book() {
    let nodes = parse_book("]][[".to_string());
    assert_eq!(nodes.len(), 0);
}

#[test]
fn schema_mismatch_gives_empty_chapter() {
    let cfg = parse_chapter(r#"{"settingList": 3}"#.to_string());
    assert_eq!(cfg.character.len(), 0);
    let cfg = parse_chapter(r#"{"unrelated": []}"#.to_string());
    assert_eq!(cfg.character.len(), 0);
    let cfg = parse_chapter(r#"[1, 2, 3]"#.to_string());
    assert_eq!(cfg.character.len(), 0);
}

#[test]
fn comment_rows_never_contribute() {
    let cfg = parse_chapter(chapter_doc(
        r#"{"strings":["Label","CharacterName","X"],"isCommentOut":0},
           {"strings":["l","alice","5"],"isCommentOut":1}"#,
    ));
    assert_eq!(cfg.character.len(), 0);

    let book = format!(
        r#"{{"settingList":[{{"name":"b","headerRow":0,"rows":[
            {{"strings":["Command","Text"],"isCommentOut":0}},
            {{"strings":["","skipped line"],"isCommentOut":1}},
            {{"strings":["","kept line"],"isCommentOut":0}}]}}]}}"#
    );
    let nodes = parse_book(book);
    assert_eq!(nodes.len(), 1);
    assert_eq!(nodes[0].text.as_deref(), Some("kept line"));
}

#[test]
fn last_row_wins_for_duplicate_keys() {
    let cfg = parse_chapter(chapter_doc(
        r#"{"strings":["Label","CharacterName","X"],"isCommentOut":0},
           {"strings":["l1","alice","1"],"isCommentOut":0},
           {"strings":["l2","alice","2"],"isCommentOut":0}"#,
    ));
    assert_eq!(cfg.character.len(), 1);
    let entry = cfg.character.get(&"alice".to_string()).expect("entry");
    assert_eq!(entry.x.as_deref(), Some("2"));
    assert_eq!(entry.label.as_deref(), Some("2"));
}

#[test]
fn header_row_is_not_data() {
    let cfg = parse_chapter(chapter_doc(
        r#"{"strings":["CharacterName","NameText"],"isCommentOut":0},
           {"strings":["alice","Alice"],"isCommentOut":0}"#,
    ));
    assert_eq!(cfg.character.len(), 1);
    assert!(cfg.character.get(&"CharacterName".to_string()).is_none());
    let entry = cfg.character.get(&"alice".to_string()).expect("entry");
    assert_eq!(entry.name_text.as_deref(), Some("Alice"));
}

#[test]
fn missing_or_empty_key_rows_are_skipped() {
    let cfg = parse_chapter(chapter_doc(
        r#"{"strings":["CharacterName","NameText"],"isCommentOut":0},
           {"strings":["","ghost"],"isCommentOut":0},
           {"strings":[],"isCommentOut":0}"#,
    ));
    assert_eq!(cfg.character.len(), 0);
}

#[test]
fn grid_name_matches_by_substring() {
    let doc = r#"{"settingList":[{"name":"export cfg_param.xlsx:Param table","headerRow":0,"rows":[
        {"strings":["Label","Value"],"isCommentOut":0},
        {"strings":["score","10"],"isCommentOut":0}]}]}"#;
    let cfg = parse_chapter(doc.to_string());
    assert_eq!(cfg.param.len(), 1);
    assert_eq!(
        cfg.param.get(&"score".to_string()).expect("entry").value.as_deref(),
        Some("10")
    );
}

#[test]
fn unmatched_grid_name_is_ignored() {
    let doc = r#"{"settingList":[{"name":"cfg_other.xlsx:Other","headerRow":0,"rows":[
        {"strings":["Label","Value"],"isCommentOut":0},
        {"strings":["score","10"],"isCommentOut":0}]}]}"#;
    let cfg = parse_chapter(doc.to_string());
    assert_eq!(cfg.param.len(), 0);
    assert_eq!(cfg.character.len(), 0);
}

#[test]
fn import_grid_list_alias_is_accepted() {
    let doc = r#"{"importGridList":[{"name":"b","headerRow":0,"rows":[
        {"strings":["Command","Arg1"],"isCommentOut":0},
        {"strings":["Wait","x"],"isCommentOut":0}]}]}"#;
    let nodes = parse_book(doc.to_string());
    assert_eq!(nodes.len(), 1);
    assert_eq!(nodes[0].command.as_deref(), Some("Wait"));
    assert_eq!(nodes[0].arg1.as_deref(), Some("x"));
}

#[test]
fn book_fields_map_by_column_name() {
    let doc = r#"{"settingList":[{"name":"","headerRow":0,"rows":[
        {"strings":["Command","Arg1","Arg2","Arg3","Arg4","Arg5","Arg6","WaitType","Text","PageCtrl","Voice","WindowType"],"isCommentOut":0},
        {"strings":["Bg","a1","a2","a3","a4","a5","a6","wt","tx","pc","vo","win"],"isCommentOut":0}]}]}"#;
    let nodes = parse_book(doc.to_string());
    assert_eq!(nodes.len(), 1);
    let n: &Node = &nodes[0];
    assert_eq!(n.command.as_deref(), Some("Bg"));
    assert_eq!(n.arg1.as_deref(), Some("a1"));
    assert_eq!(n.arg2.as_deref(), Some("a2"));
    assert_eq!(n.arg3.as_deref(), Some("a3"));
    assert_eq!(n.arg4.as_deref(), Some("a4"));
    assert_eq!(n.arg5.as_deref(), Some("a5"));
    assert_eq!(n.arg6.as_deref(), Some("a6"));
    assert_eq!(n.wait_type.as_deref(), Some("wt"));
    assert_eq!(n.text.as_deref(), Some("tx"));
    assert_eq!(n.page_ctrl.as_deref(), Some("pc"));
    assert_eq!(n.voice.as_deref(), Some("vo"));
    assert_eq!(n.window_type.as_deref(), Some("win"));
}

#[test]
fn empty_cells_and_empty_columns_are_skipped() {
    let doc = r#"{"settingList":[{"name":"","headerRow":0,"rows":[
        {"strings":["Command","","Text"],"isCommentOut":0},
        {"strings":["","ignored",""],"isCommentOut":0},
        {"strings":["Wait","ignored","hello"],"isCommentOut":0}]}]}"#;
    let nodes = parse_book(doc.to_string());
    assert_eq!(nodes.len(), 1);
    assert_eq!(nodes[0].command.as_deref(), Some("Wait"));
    assert_eq!(nodes[0].text.as_deref(), Some("hello"));
}

#[test]
fn out_of_range_header_row_skips_grid() {
    let doc = r#"{"settingList":[{"name":"b","headerRow":5,"rows":[
        {"strings":["Command"],"isCommentOut":0},
        {"strings":["Wait"],"isCommentOut":0}]}]}"#;
    let nodes = parse_book(doc.to_string());
    assert_eq!(nodes.len(), 0);
}

#[test]
fn grids_contribute_in_document_order() {
    let doc = r#"{"settingList":[
        {"name":"one","headerRow":0,"rows":[
            {"strings":["Text"],"isCommentOut":0},
            {"strings":["first"],"isCommentOut":0}]},
        {"name":"two","headerRow":0,"rows":[
            {"strings":["Text"],"isCommentOut":0},
            {"strings":["second"],"isCommentOut":0}]}]}"#;
    let nodes = parse_book(doc.to_string());
    assert_eq!(nodes.len(), 2);
    assert_eq!(nodes[0].text.as_deref(), Some("first"));
    assert_eq!(nodes[1].text.as_deref(), Some("second"));
}

#[test]
fn duplicate_columns_keep_the_last_cell() {
    let doc = r#"{"settingList":[{"name":"","headerRow":0,"rows":[
        {"strings":["Text","Text"],"isCommentOut":0},
        {"strings":["first","second"],"isCommentOut":0}]}]}"#;
    let nodes = parse_book(doc.to_string());
    assert_eq!(nodes.len(), 1);
    assert_eq!(nodes[0].text.as_deref(), Some("second"));
}

#[test]
fn one_malformed_row_rejects_the_whole_document() {
    let doc = r#"{"settingList":[{"name":"cfg_param.xlsx:Param","headerRow":0,"rows":[
        {"strings":["Label","Value"],"isCommentOut":0},
        {"strings":"notanarray","isCommentOut":0}]}]}"#;
    let cfg = parse_chapter(doc.to_string());
    assert_eq!(cfg.param.len(), 0);

    let doc = r#"{"settingList":[{"name":"b","headerRow":0,"rows":[
        {"strings":["Text"],"isCommentOut":1.5},
        {"strings":["hello"],"isCommentOut":0}]}]}"#;
    let nodes = parse_book(doc.to_string());
    assert_eq!(nodes.len(), 0);
}
