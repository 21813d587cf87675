use utage_vn::effects::{AudioCategory, Effect, TextureCategory};
use utage_vn::interp::{Interpreter, VNState};
use utage_vn::num::Milli;
use utage_vn::utage4::{parse_chapter, Node, VNConfig};

fn dialogue(text: &str) -> Node {
    Node { text: Some(text.to_string()), ..Node::default() }
}

fn command(name: &str) -> Node {
    Node { command: Some(name.to_string()), ..Node::default() }
}

#[test]
fn end_to_end_dialogue_wait_dialogue() {
    let mut vn = Interpreter::new(VNConfig::default());
    let wait = Node { arg6: Some("2.0".to_string()), ..command("Wait") };
    vn.activate(vec![dialogue("Hi"), wait, dialogue("Bye")]);
    assert_eq!(vn.state(), VNState::Running);

    let effects = vn.advance();
    assert_eq!(
        effects,
        vec![Effect::ShowDialogue { char_name: "".to_string(), text: "Hi".to_string() }]
    );
    assert_eq!(vn.state(), VNState::AwaitingInput);

    // let the reveal run to completion, then proceed
    let effects = vn.tick(Milli(200));
    assert!(effects.is_empty());
    assert!(vn.reveal_finished());
    assert_eq!(vn.revealed_text(), "Hi");

    let effects = vn.advance();
    assert_eq!(effects, vec![Effect::Wait { duration: Milli(2000) }]);
    assert_eq!(vn.state(), VNState::Waiting);
    assert_eq!(vn.wait_timer, Some(Milli(2000)));

    let effects = vn.tick(Milli(2000));
    assert_eq!(
        effects,
        vec![Effect::ShowDialogue { char_name: "".to_string(), text: "Bye".to_string() }]
    );
    assert_eq!(vn.state(), VNState::AwaitingInput);

    let effects = vn.tick(Milli(500));
    assert!(effects.is_empty());
    assert!(vn.reveal_finished());

    let effects = vn.advance();
    assert_eq!(effects, vec![Effect::ScenarioEnded]);
    assert_eq!(vn.state(), VNState::Idle);
}

#[test]
fn wait_with_unparsable_argument_defaults_to_a_tenth() {
    let mut vn = Interpreter::new(VNConfig::default());
    let wait = Node { arg6: Some("notanumber".to_string()), ..command("Wait") };
    vn.activate(vec![wait]);
    let effects = vn.advance();
    assert_eq!(effects, vec![Effect::Wait { duration: Milli(100) }]);
    assert_eq!(vn.wait_timer, Some(Milli(100)));
}

#[test]
fn abort_is_idempotent_from_any_state() {
    let mut vn = Interpreter::new(VNConfig::default());
    let wait = Node { arg6: Some("9".to_string()), ..command("Wait") };
    vn.activate(vec![dialogue("Hi"), wait]);
    vn.advance();
    vn.abort();
    assert_eq!(vn.state(), VNState::Idle);
    assert_eq!(vn.params.len(), 0);
    assert_eq!(vn.wait_timer, None);
    assert_eq!(vn.offset, 0);
    vn.abort();
    assert_eq!(vn.state(), VNState::Idle);
    assert_eq!(vn.params.len(), 0);
    assert_eq!(vn.wait_timer, None);
    assert_eq!(vn.offset, 0);
}

#[test]
fn first_press_skips_reveal_second_advances() {
    let mut vn = Interpreter::new(VNConfig::default());
    vn.activate(vec![dialogue("Hello"), dialogue("Next")]);
    vn.advance();
    assert!(!vn.reveal_finished());
    assert_eq!(vn.revealed_text(), "");
    let effects = vn.advance();
    assert!(effects.is_empty());
    assert!(vn.reveal_finished());
    assert_eq!(vn.revealed_text(), "Hello");
    let effects = vn.advance();
    assert_eq!(
        effects,
        vec![Effect::ShowDialogue { char_name: "".to_string(), text: "Next".to_string() }]
    );
}

#[test]
fn reveal_uncovers_one_character_per_interval() {
    let mut vn = Interpreter::new(VNConfig::default());
    vn.activate(vec![dialogue("abcd")]);
    vn.advance();
    vn.tick(Milli(59));
    assert_eq!(vn.revealed_text(), "");
    vn.tick(Milli(1));
    assert_eq!(vn.revealed_text(), "a");
    vn.tick(Milli(120));
    assert_eq!(vn.revealed_text(), "abc");
}

#[test]
fn param_command_binds_for_later_tags() {
    let mut vn = Interpreter::new(VNConfig::default());
    let set = Node { arg1: Some("name=\\\"Rin\\\"".to_string()), ..command("Param") };
    vn.activate(vec![set, dialogue("Hi <param=name>")]);
    let effects = vn.advance();
    assert_eq!(
        effects,
        vec![Effect::ShowDialogue { char_name: "".to_string(), text: "Hi Rin".to_string() }]
    );
    assert_eq!(vn.params.get(&"name".to_string()), Some(&"Rin".to_string()));
}

#[test]
fn param_command_rejects_empty_sides() {
    let mut vn = Interpreter::new(VNConfig::default());
    let set = Node { arg1: Some("=value".to_string()), ..command("Param") };
    let set2 = Node { arg1: Some("key=".to_string()), ..command("Param") };
    vn.activate(vec![set, set2, dialogue("x")]);
    vn.advance();
    assert_eq!(vn.params.len(), 0);
}

#[test]
fn dialogue_resolves_character_and_layer() {
    let doc = r#"{"settingList":[
        {"name":"cfg_character.xlsx:Character","headerRow":0,"rows":[
            {"strings":["Label","CharacterName","NameText","X","Scale"],"isCommentOut":0},
            {"strings":["lbl","alice","Alice","5","2"],"isCommentOut":0}]},
        {"name":"cfg_layer.xlsx:Layer","headerRow":0,"rows":[
            {"strings":["LayerName","X","Y","Order","ScaleX","ScaleY"],"isCommentOut":0},
            {"strings":["stage","100","200","7","3","4"],"isCommentOut":0}]}]}"#;
    let cfg = parse_chapter(doc.to_string());
    let mut vn = Interpreter::new(cfg);
    let node = Node {
        arg1: Some("alice".to_string()),
        arg2: Some("idle".to_string()),
        arg3: Some("stage".to_string()),
        text: Some("hi".to_string()),
        ..Node::default()
    };
    vn.activate(vec![node]);
    let effects = vn.advance();
    assert_eq!(effects.len(), 2);
    assert_eq!(
        effects[0],
        Effect::SpawnOrUpdateCharacter {
            label: "alice".to_string(),
            motion: "idle".to_string(),
            layer: "stage".to_string(),
            x: Milli(5000),      // the entry's X outranks the layer's
            y: Milli(200000),    // only the layer gives a Y
            z: Milli(7000),      // the layer's order stands in for Z
            scale_x: Milli(2000),
            scale_y: Milli(2000),
        }
    );
    assert_eq!(
        effects[1],
        Effect::ShowDialogue { char_name: "Alice".to_string(), text: "hi".to_string() }
    );
}

#[test]
fn unknown_character_shows_raw_name() {
    let mut vn = Interpreter::new(VNConfig::default());
    let node = Node { arg1: Some("bob".to_string()), ..dialogue("yo") };
    vn.activate(vec![node]);
    let effects = vn.advance();
    assert_eq!(
        effects,
        vec![Effect::ShowDialogue { char_name: "bob".to_string(), text: "yo".to_string() }]
    );
}

fn sound_config() -> VNConfig {
    let doc = r#"{"settingList":[{"name":"cfg_sound.xlsx:Sound","headerRow":0,"rows":[
        {"strings":["Label","FileName","Volume"],"isCommentOut":0},
        {"strings":["theme","theme.ogg","0.5"],"isCommentOut":0}]}]}"#;
    parse_chapter(doc.to_string())
}

#[test]
fn bgm_fades_predecessor_and_plays() {
    let mut vn = Interpreter::new(sound_config());
    let node = Node { arg1: Some("theme".to_string()), ..command("Bgm") };
    vn.activate(vec![node, dialogue("x")]);
    let effects = vn.advance();
    assert_eq!(effects.len(), 3);
    match &effects[0] {
        Effect::StopSound { filter, fade } => {
            assert_eq!(filter.category, Some(AudioCategory::Bgm));
            assert_eq!(filter.label, None);
            assert_eq!(*fade, Milli(200));
        },
        other => panic!("unexpected effect {:?}", other),
    }
    assert_eq!(
        effects[1],
        Effect::PlaySound {
            category: AudioCategory::Bgm,
            label: "theme".to_string(),
            file: "theme.m4a".to_string(),
            volume: Milli(500),
            looped: true,
        }
    );
}

#[test]
fn se_is_fire_and_forget() {
    let mut vn = Interpreter::new(sound_config());
    let node = Node {
        arg1: Some("theme".to_string()),
        arg3: Some("0.25".to_string()),
        ..command("Se")
    };
    vn.activate(vec![node, dialogue("x")]);
    let effects = vn.advance();
    assert_eq!(
        effects[0],
        Effect::PlaySound {
            category: AudioCategory::Se,
            label: "theme".to_string(),
            file: "theme.m4a".to_string(),
            volume: Milli(250),  // the explicit argument outranks the entry
            looped: false,
        }
    );
}

#[test]
fn unknown_sound_label_does_nothing() {
    let mut vn = Interpreter::new(sound_config());
    let node = Node { arg1: Some("missing".to_string()), ..command("Bgm") };
    vn.activate(vec![node, dialogue("x")]);
    let effects = vn.advance();
    assert_eq!(effects.len(), 1); // only the dialogue
}

#[test]
fn stop_sound_defaults_to_music_and_ambience() {
    let mut vn = Interpreter::new(VNConfig::default());
    vn.activate(vec![command("StopSound"), dialogue("x")]);
    let effects = vn.advance();
    assert_eq!(effects.len(), 3);
    match (&effects[0], &effects[1]) {
        (
            Effect::StopSound { filter: f1, .. },
            Effect::StopSound { filter: f2, .. },
        ) => {
            assert_eq!(f1.category, Some(AudioCategory::Bgm));
            assert_eq!(f2.category, Some(AudioCategory::Ambience));
        },
        other => panic!("unexpected effects {:?}", other),
    }
}

#[test]
fn stop_sound_all_stops_everything_at_once() {
    let mut vn = Interpreter::new(VNConfig::default());
    let node = Node { arg1: Some("All".to_string()), ..command("StopSound") };
    vn.activate(vec![node, dialogue("x")]);
    let effects = vn.advance();
    assert_eq!(effects[0], Effect::StopVoice);
    match &effects[1] {
        Effect::StopSound { filter, .. } => {
            assert_eq!(filter.category, None);
            assert_eq!(filter.label, None);
        },
        other => panic!("unexpected effect {:?}", other),
    }
}

#[test]
fn stop_sound_ignores_overlong_lists() {
    let mut vn = Interpreter::new(VNConfig::default());
    let node = Node { arg1: Some("Se,Bgm,Voice,Se,Bgm".to_string()), ..command("StopSound") };
    vn.activate(vec![node, dialogue("x")]);
    let effects = vn.advance();
    assert_eq!(effects.len(), 1); // only the dialogue
}

#[test]
fn textures_show_and_hide_by_category() {
    let doc = r#"{"settingList":[{"name":"cfg_texture.xlsx:Texture","headerRow":0,"rows":[
        {"strings":["Label","Type","FileName","X"],"isCommentOut":0},
        {"strings":["sky","Bg","sky.png","9"],"isCommentOut":0}]}]}"#;
    let cfg = parse_chapter(doc.to_string());
    let mut vn = Interpreter::new(cfg);
    let show = Node { arg1: Some("sky".to_string()), ..command("Bg") };
    vn.activate(vec![show, command("BgOff"), dialogue("x")]);
    let effects = vn.advance();
    assert_eq!(effects.len(), 3);
    match &effects[0] {
        Effect::ShowTexture { category, label, file, file_kind, x, scale_x, .. } => {
            assert_eq!(*category, TextureCategory::Bg);
            assert_eq!(label, "sky");
            assert_eq!(file, "sky.png");
            assert_eq!(*file_kind, TextureCategory::Bg);
            assert_eq!(*x, Milli(9000));
            assert_eq!(*scale_x, Milli(1000));
        },
        other => panic!("unexpected effect {:?}", other),
    }
    match &effects[1] {
        Effect::HideTexture { filter } => {
            assert_eq!(filter.category, Some(TextureCategory::Bg));
            assert_eq!(filter.ident, None);
        },
        other => panic!("unexpected effect {:?}", other),
    }
}

#[test]
fn sprite_off_sentinel_means_everything() {
    let mut vn = Interpreter::new(VNConfig::default());
    let node = Node { arg1: Some("AllSpriteObjects".to_string()), ..command("SpriteOff") };
    vn.activate(vec![node, dialogue("x")]);
    let effects = vn.advance();
    match &effects[0] {
        Effect::HideTexture { filter } => {
            assert_eq!(filter.category, Some(TextureCategory::Sprite));
            assert_eq!(filter.ident, None);
            assert!(filter.match_label);
        },
        other => panic!("unexpected effect {:?}", other),
    }
}

#[test]
fn fast_forward_releases_waits_each_tick() {
    let mut vn = Interpreter::new(VNConfig::default());
    let wait = Node { arg6: Some("100".to_string()), ..command("Wait") };
    vn.activate(vec![wait, dialogue("end")]);
    vn.advance();
    assert_eq!(vn.state(), VNState::Waiting);
    vn.set_fast(true);
    let effects = vn.tick(Milli(1));
    assert_eq!(
        effects,
        vec![Effect::ShowDialogue { char_name: "".to_string(), text: "end".to_string() }]
    );
    assert_eq!(vn.wait_timer, None);
}

#[test]
fn fade_overlay_pauses_the_reveal() {
    let mut vn = Interpreter::new(VNConfig::default());
    let fade = Node { arg6: Some("0.3".to_string()), ..command("FadeIn") };
    vn.activate(vec![fade, dialogue("ab")]);
    let effects = vn.advance();
    assert_eq!(effects.len(), 2);
    assert_eq!(
        effects[0],
        Effect::FadeOverlay {
            color: "#FFFFFF".to_string(),
            duration: Milli(300),
            fade_out: false,
        }
    );
    // while the overlay runs, ticking reveals nothing
    vn.tick(Milli(120));
    assert_eq!(vn.revealed_text(), "");
    // the overlay has 180 left; this tick ends it but is still paused
    vn.tick(Milli(200));
    assert_eq!(vn.revealed_text(), "");
    // with the overlay gone the reveal runs again
    vn.tick(Milli(120));
    assert_eq!(vn.revealed_text(), "ab");
}

#[test]
fn voice_command_stops_then_plays() {
    let mut vn = Interpreter::new(VNConfig::default());
    let node = Node {
        voice: Some("line_001".to_string()),
        arg2: Some("TRUE".to_string()),
        ..command("Voice")
    };
    vn.activate(vec![node, dialogue("x")]);
    let effects = vn.advance();
    assert_eq!(effects[0], Effect::StopVoice);
    assert_eq!(
        effects[1],
        Effect::PlayVoice { file: "line_001.m4a".to_string(), volume: Milli(1000), looped: true }
    );
}

#[test]
fn unknown_commands_are_skipped() {
    let mut vn = Interpreter::new(VNConfig::default());
    vn.activate(vec![command("Teleport"), dialogue("x")]);
    let effects = vn.advance();
    assert_eq!(
        effects,
        vec![Effect::ShowDialogue { char_name: "".to_string(), text: "x".to_string() }]
    );
}

#[test]
fn activation_resets_session_state() {
    let mut vn = Interpreter::new(VNConfig::default());
    let set = Node { arg1: Some("k=v".to_string()), ..command("Param") };
    vn.activate(vec![set, dialogue("one")]);
    vn.advance();
    assert_eq!(vn.params.len(), 1);
    vn.set_fast(true);
    vn.activate(vec![dialogue("two")]);
    assert_eq!(vn.params.len(), 0);
    assert!(!vn.fast);
    assert_eq!(vn.offset, 0);
    assert_eq!(vn.state(), VNState::Running);
}

#[test]
fn negative_wait_is_clamped_to_zero() {
    let mut vn = Interpreter::new(VNConfig::default());
    let wait = Node { arg6: Some("-5".to_string()), ..command("Wait") };
    vn.activate(vec![wait, dialogue("x")]);
    let effects = vn.advance();
    assert_eq!(effects, vec![Effect::Wait { duration: Milli(0) }]);
    let effects = vn.tick(Milli(0));
    assert_eq!(
        effects,
        vec![Effect::ShowDialogue { char_name: "".to_string(), text: "x".to_string() }]
    );
}
