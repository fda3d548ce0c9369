use demoman::demo::{Demo, DemoEvent, DemoEventType, SortKey};
use demoman::floats::{is_nan, rank};
use demoman::order::{compare_demos_by, compare_floats, sort_demos};
use std::cmp::Ordering;
use std::sync::Arc;

fn demo(name: &str, map: &str, filesize: u64, birthtime: u64, events: usize, seconds: f32) -> Demo {
    Demo {
        name: name.to_string(),
        path: String::new(),
        birthtime,
        filesize,
        events: (0..events)
            .map(|tick| DemoEvent {
                name: DemoEventType::Killstreak,
                value: String::new(),
                tick: tick as u64,
            })
            .collect(),
        tags: Vec::new(),
        server_name: String::new(),
        client_name: String::new(),
        map_name: map.to_string(),
        playback_time: seconds.to_bits(),
        num_ticks: 0,
        is_stv: false,
    }
}

fn demos() -> Vec<Arc<Demo>> {
    vec![
        Arc::new(demo("b", "koth_product", 30, 300, 2, 12.5)),
        Arc::new(demo("a", "cp_process", 10, 400, 0, 900.0)),
        Arc::new(demo("d", "cp_gullywash", 40, 100, 1, 0.25)),
        Arc::new(demo("c", "pl_upward", 20, 200, 3, 60.0)),
    ]
}

fn names(demos: &Vec<Arc<Demo>>) -> String {
    demos.iter().map(|demo| demo.name.as_str()).collect()
}

fn sorted(key: SortKey, reverse: bool) -> String {
    let mut demos = demos();
    sort_demos(&mut demos, key, reverse);
    names(&demos)
}

#[test]
fn sorting_by_each_key() {
    assert_eq!(sorted(SortKey::Name, false), "abcd");
    assert_eq!(sorted(SortKey::Name, true), "dcba");
    assert_eq!(sorted(SortKey::FileSize, false), "acbd");
    assert_eq!(sorted(SortKey::FileSize, true), "dbca");
    assert_eq!(sorted(SortKey::Birthtime, false), "dcba");
    assert_eq!(sorted(SortKey::Birthtime, true), "abcd");
    assert_eq!(sorted(SortKey::MapName, false), "dabc");
    assert_eq!(sorted(SortKey::MapName, true), "cbad");
    assert_eq!(sorted(SortKey::EventCount, false), "adbc");
    assert_eq!(sorted(SortKey::EventCount, true), "cbda");
    assert_eq!(sorted(SortKey::PlaybackTime, false), "dbca");
    assert_eq!(sorted(SortKey::PlaybackTime, true), "acbd");
}

#[test]
fn sorting_keeps_every_recording() {
    let before = demos();
    let mut after = demos();
    after.push(Arc::clone(&after[0]));
    sort_demos(&mut after, SortKey::FileSize, false);
    assert_eq!(after.len(), 5);
    for demo in before.iter() {
        assert!(after.iter().any(|other| other.name == demo.name));
    }
    assert_eq!(names(&after), "acbbd");
    let mut none: Vec<Arc<Demo>> = Vec::new();
    sort_demos(&mut none, SortKey::Name, true);
    assert!(none.is_empty());
}

#[test]
fn texts_are_ordered_by_their_characters() {
    let order = |a: &str, b: &str| {
        compare_demos_by(
            SortKey::Name,
            false,
            &demo(a, "", 0, 0, 0, 0.0),
            &demo(b, "", 0, 0, 0, 0.0),
        )
    };
    assert_eq!(order("", ""), Ordering::Equal);
    assert_eq!(order("", "a"), Ordering::Less);
    assert_eq!(order("a", ""), Ordering::Greater);
    assert_eq!(order("demo", "demo"), Ordering::Equal);
    assert_eq!(order("demo", "demo2"), Ordering::Less);
    assert_eq!(order("Z", "a"), Ordering::Less);
    assert_eq!(order("b", "abc"), Ordering::Greater);
    assert_eq!(order("é", "z"), Ordering::Greater);
    assert_eq!(order("\u{ffff}", "\u{10000}"), Ordering::Less);
}

#[test]
fn reverse_turns_the_order_round() {
    let small = demo("a", "a", 1, 1, 0, 1.0);
    let large = demo("b", "b", 2, 2, 1, 2.0);
    for key in [
        SortKey::Name,
        SortKey::FileSize,
        SortKey::Birthtime,
        SortKey::MapName,
        SortKey::EventCount,
        SortKey::PlaybackTime,
    ] {
        assert_eq!(compare_demos_by(key, false, &small, &large), Ordering::Less);
        assert_eq!(compare_demos_by(key, false, &large, &small), Ordering::Greater);
        assert_eq!(compare_demos_by(key, false, &small, &small), Ordering::Equal);
        assert_eq!(compare_demos_by(key, true, &small, &large), Ordering::Greater);
        assert_eq!(compare_demos_by(key, true, &large, &small), Ordering::Less);
        assert_eq!(compare_demos_by(key, true, &large, &large), Ordering::Equal);
    }
}

#[test]
fn bit_patterns_are_ordered_as_their_numbers() {
    let values: [f32; 13] = [
        f32::NEG_INFINITY,
        f32::MIN,
        -900.5,
        -1.0,
        -f32::MIN_POSITIVE,
        -0.0,
        0.0,
        f32::MIN_POSITIVE,
        0.25,
        1.0,
        182206.0,
        f32::MAX,
        f32::INFINITY,
    ];
    for a in values {
        for b in values {
            let expected = a.partial_cmp(&b).unwrap();
            assert_eq!(compare_floats(a.to_bits(), b.to_bits()), expected, "{} and {}", a, b);
        }
        assert_eq!(compare_floats(a.to_bits(), f32::NAN.to_bits()), Ordering::Equal);
        assert_eq!(compare_floats(f32::NAN.to_bits(), a.to_bits()), Ordering::Equal);
        assert!(!is_nan(a.to_bits()));
    }
    assert!(is_nan(f32::NAN.to_bits()));
    assert!(is_nan(0x7f80_0001));
    assert!(is_nan(0xffc0_0000));
    assert!(!is_nan(0x7f80_0000));
    assert_eq!(rank(0), 0);
    assert_eq!(rank(0x8000_0000), 0);
    assert_eq!(rank(1.0f32.to_bits()), 0x3f80_0000);
    assert_eq!(rank((-1.0f32).to_bits()), -0x3f80_0000);
}
