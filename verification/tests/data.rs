use std::sync::Arc;
use taimi_hud::jsonc::{DataError, strip_comments};
use taimi_hud::keyed::KeyedList;
use taimi_hud::marker::MarkerSet;
use taimi_hud::space::{ModelKind, PrimitiveTopology, ShaderDescription, ShaderError, ShaderKind};
use taimi_hud::tabs::{MarkerTabState, TimerTabState};
use taimi_hud::timer::{TimerFile, TimerTrigger, TimerTriggerType};

type Pos = [f32; 3];
type Colour = [f32; 4];

#[test]
fn comments_are_blanked_out() {
    let text = "{\n// line comment\n\"a\": \"x // y\", # shell\n\"b\": [1, 2,] /* block */\n}".to_string();
    let stripped = strip_comments(text.clone()).unwrap();
    assert_eq!(stripped.len(), text.len());
    assert!(!stripped.contains("line comment"));
    assert!(!stripped.contains("shell"));
    assert!(!stripped.contains("block"));
    assert!(stripped.contains("\"x // y\""));
    assert!(stripped.contains("[1, 2 ]"));
    let value: serde_json::Value = serde_json::from_str(&stripped).unwrap();
    assert_eq!(value["a"], "x // y");
    assert_eq!(value["b"][1], 2);
}

#[test]
fn text_without_comments_is_unchanged() {
    let text = "{\"a\": 1}".to_string();
    assert_eq!(strip_comments(text.clone()), Ok(text));
}

#[test]
fn a_lone_slash_is_refused() {
    assert_eq!(strip_comments("{\"a\": 1 / 2}".to_string()), Err(DataError::MalformedComment));
}

#[test]
fn topologies_in_direct3d() {
    assert_eq!(PrimitiveTopology::default(), PrimitiveTopology::TriangleList);
    assert_eq!(PrimitiveTopology::default().dx11(), 4);
    assert_eq!(PrimitiveTopology::Undefined.dx11(), 0);
    assert_eq!(PrimitiveTopology::LineStrip.dx11(), 3);
    assert_eq!(PrimitiveTopology::LineListAdj.dx11(), 10);
    assert_eq!(PrimitiveTopology::TriangleStripAdj.dx11(), 13);
    assert_eq!(ModelKind::default(), ModelKind::Obj);
}

#[test]
fn shader_targets() {
    assert_eq!(ShaderKind::Vertex.to_string(), "Vertex");
    assert_eq!(ShaderKind::Pixel.to_string(), "Pixel");
    let d = ShaderDescription {
        identifier: "basic".to_string(),
        kind: ShaderKind::Pixel,
        path: "basic.hlsl".to_string(),
        entrypoint: "PSMain".to_string(),
    };
    let file = format!("shaders{}basic.hlsl", std::path::MAIN_SEPARATOR);
    assert_eq!(d.get("shaders"), Ok((file, "ps_5_0".to_string(), "PSMain".to_string())));
    let v = ShaderDescription { kind: ShaderKind::Vertex, ..d };
    assert_eq!(v.get("shaders").unwrap().1, "vs_5_0");
    let bad = ShaderDescription { entrypoint: "VS\0Main".to_string(), ..v };
    assert_eq!(bad.get("shaders"), Err(ShaderError::NulInEntrypoint));
}

fn timer(id: &str, category: &str) -> TimerFile<Pos, f32, Colour> {
    TimerFile {
        id: id.to_string(),
        name: id.to_string(),
        category: category.to_string(),
        description: String::new(),
        author: String::new(),
        icon: String::new(),
        map_id: 1,
        reset: TimerTrigger {
            kind: TimerTriggerType::Location,
            key_bind: None,
            position: None,
            antipode: None,
            radius: None,
            require_combat: false,
            require_out_of_combat: false,
            require_entry: false,
            require_departure: false,
        },
        phases: Vec::new(),
    }
}

#[test]
fn timer_tab_groups_and_sorts_categories() {
    let mut tab: TimerTabState<Pos, f32, Colour> = TimerTabState::new();
    assert!(tab.category_list().is_empty());
    tab.timers_update(vec![
        Arc::new(timer("a", "Strikes")),
        Arc::new(timer("b", "Raids")),
        Arc::new(timer("c", "Strikes")),
        Arc::new(timer("d", "Fractals")),
        Arc::new(timer("e", "Raids")),
    ]);
    assert_eq!(tab.timers.len(), 5);
    assert_eq!(tab.filed.len(), 5);
    assert_eq!(
        tab.category_list(),
        vec![
            ("Fractals".to_string(), vec![3]),
            ("Raids".to_string(), vec![1, 4]),
            ("Strikes".to_string(), vec![0, 2]),
        ]
    );
    // A second load replaces the timers; what the index held still names the
    // timers of the first load.
    tab.timers_update(vec![Arc::new(timer("f", "Raids")), Arc::new(timer("g", "Golems"))]);
    assert_eq!(tab.timers.len(), 2);
    assert_eq!(tab.timers[0].id, "f");
    assert_eq!(tab.filed.len(), 7);
    assert_eq!(tab.filed[1].id, "b");
    assert_eq!(tab.filed[5].id, "f");
    assert_eq!(
        tab.category_list(),
        vec![
            ("Fractals".to_string(), vec![3]),
            ("Golems".to_string(), vec![6]),
            ("Raids".to_string(), vec![1, 4, 5]),
            ("Strikes".to_string(), vec![0, 2]),
        ]
    );
}

fn set(name: &str) -> MarkerSet<Pos> {
    MarkerSet {
        enabled: true,
        author: None,
        name: name.to_string(),
        description: String::new(),
        category: None,
        map_id: 1,
        trigger: [0.0; 3],
        markers: Vec::new(),
        path: None,
        idx: None,
    }
}

#[test]
fn marker_tab_indexes_sets_by_sorted_category() {
    let mut grouped: KeyedList<Vec<MarkerSet<Pos>>> = KeyedList::new();
    grouped.insert("Strikes".to_string(), vec![set("Bone"), set("Whisper")]);
    grouped.insert("Custom".to_string(), vec![set("Preset")]);
    grouped.insert("Raids".to_string(), vec![set("VG")]);
    let mut tab: MarkerTabState<Pos> = MarkerTabState::new();
    tab.marker_update(grouped);
    let names: Vec<&str> = tab.sets.iter().map(|s| s.name.as_str()).collect();
    assert_eq!(names, vec!["Bone", "Whisper", "Preset", "VG"]);
    assert_eq!(
        tab.category_list(),
        vec![("Custom".to_string(), vec![2]), ("Raids".to_string(), vec![3]), ("Strikes".to_string(), vec![0, 1])]
    );
    let mut again: KeyedList<Vec<MarkerSet<Pos>>> = KeyedList::new();
    again.insert("Raids".to_string(), vec![set("Sabetha")]);
    tab.marker_update(again);
    assert_eq!(tab.category_list(), vec![("Raids".to_string(), vec![0])]);
    assert_eq!(tab.sets.len(), 1);
}
