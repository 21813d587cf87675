use utage_vn::num::Milli;
use utage_vn::tween::{
    parse_ease_type, parse_loop_type, parse_tween_type, EaseType, LoopType, Tween, TweenType,
};
use utage_vn::utage4::Node;

fn tween_node(arg3: Option<&str>, arg4: Option<&str>, arg5: Option<&str>) -> Node {
    Node {
        command: Some("Tween".to_string()),
        arg1: Some("target".to_string()),
        arg2: Some("MoveBy".to_string()),
        arg3: arg3.map(|s| s.to_string()),
        arg4: arg4.map(|s| s.to_string()),
        arg5: arg5.map(|s| s.to_string()),
        ..Node::default()
    }
}

#[test]
fn tween_params_round_trip() {
    let node = tween_node(Some("time=0.5 x=10 color=#FFAA00"), None, None);
    let t = Tween::new(&node).expect("tween");
    assert_eq!(t.target, "target");
    assert_eq!(t.tween_type, TweenType::MoveBy);
    assert_eq!(t.params.time, Some(Milli(500)));
    assert_eq!(t.params.x, Some(Milli(10000)));
    assert_eq!(t.params.color.as_deref(), Some("#FFAA00"));
    assert_eq!(t.params.speed, None);
    assert_eq!(t.params.delay, None);
    assert_eq!(t.params.y, None);
    assert_eq!(t.params.z, None);
    assert_eq!(t.params.islocal, None);
    assert_eq!(t.params.alpha, None);
    assert_eq!(t.params.r, None);
    assert_eq!(t.params.g, None);
    assert_eq!(t.params.b, None);
    assert_eq!(t.params.a, None);
    assert_eq!(t.ease_type, EaseType::Linear);
    assert_eq!(t.loop_type, None);
}

#[test]
fn tween_reads_ease_and_loop() {
    let node = tween_node(None, Some("easeInQuart"), Some("loop=3"));
    let t = Tween::new(&node).expect("tween");
    assert_eq!(t.ease_type, EaseType::EaseInQuart);
    assert_eq!(t.loop_type, Some(LoopType::Loop(Some(3))));
}

#[test]
fn non_tween_nodes_give_none() {
    let mut node = tween_node(None, None, None);
    node.command = Some("Wait".to_string());
    assert!(Tween::new(&node).is_none());
    let mut node = tween_node(None, None, None);
    node.command = None;
    assert!(Tween::new(&node).is_none());
}

#[test]
fn tween_without_target_or_kind_gives_none() {
    let mut node = tween_node(None, None, None);
    node.arg1 = None;
    assert!(Tween::new(&node).is_none());
    let mut node = tween_node(None, None, None);
    node.arg2 = Some("Spin".to_string());
    assert!(Tween::new(&node).is_none());
    let mut node = tween_node(None, None, None);
    node.arg2 = None;
    assert!(Tween::new(&node).is_none());
}

#[test]
fn tween_type_names() {
    assert_eq!(parse_tween_type("MoveBy"), Some(TweenType::MoveBy));
    assert_eq!(parse_tween_type("PunchPosition"), Some(TweenType::PunchPosition));
    assert_eq!(parse_tween_type("ShakePosition"), Some(TweenType::ShakePosition));
    assert_eq!(parse_tween_type("ColorTo"), Some(TweenType::ColorTo));
    assert_eq!(parse_tween_type("moveby"), None);
}

#[test]
fn ease_type_names() {
    assert_eq!(parse_ease_type("easeInQuart"), EaseType::EaseInQuart);
    assert_eq!(parse_ease_type("linear"), EaseType::Linear);
    assert_eq!(parse_ease_type("anything"), EaseType::Linear);
}

#[test]
fn loop_type_names() {
    assert_eq!(parse_loop_type("loop=2"), Some(LoopType::Loop(Some(2))));
    assert_eq!(parse_loop_type("loop"), Some(LoopType::Loop(None)));
    assert_eq!(parse_loop_type("loopX"), Some(LoopType::Loop(None)));
    assert_eq!(parse_loop_type("loop=x"), Some(LoopType::Loop(None)));
    assert_eq!(parse_loop_type("pingPong=4"), Some(LoopType::PingPong(Some(4))));
    assert_eq!(parse_loop_type("pingPong"), Some(LoopType::PingPong(None)));
    assert_eq!(parse_loop_type("once"), None);
}

#[test]
fn malformed_tokens_are_passed_over() {
    let node = tween_node(Some("time=abc  unknown=1 x=2 bare islocal=true"), None, None);
    let t = Tween::new(&node).expect("tween");
    assert_eq!(t.params.time, None);
    assert_eq!(t.params.x, Some(Milli(2000)));
    assert_eq!(t.params.islocal, Some(true));
}
