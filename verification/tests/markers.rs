use taimi_hud::keyed::KeyedList;
use taimi_hud::marker_edit::{append_set, apply_save, created_file, delete_set, replace_set, MarkerEditError};
use taimi_hud::render::{MarkerFiletype, MarkerSaveEvent};
use taimi_hud::marker::{
    CurrentPerspective, CustomMarkers, GameBind, MarkerCategory, MarkerEntry, MarkerFile, MarkerFormats, MarkerSet,
    MarkerType, MinimapPlacement, RuntimeMarkers,
};

type Pos = [f32; 3];

fn set(name: &str, map_id: u32, author: Option<&str>) -> MarkerSet<Pos> {
    MarkerSet {
        enabled: true,
        author: author.map(|a| a.to_string()),
        name: name.to_string(),
        description: String::new(),
        category: None,
        map_id,
        trigger: [0.0, 0.0, 0.0],
        markers: vec![MarkerEntry { marker: MarkerType::Arrow, id: None, position: [1.0, 2.0, 3.0] }],
        path: None,
        idx: None,
    }
}

#[test]
fn marker_numbers_round_trip() {
    for v in 0u8..10 {
        let m = MarkerType::from_repr(v).unwrap();
        assert_eq!(m.to_repr(), v);
    }
    assert_eq!(MarkerType::from_repr(10), None);
    assert_eq!(MarkerType::from_repr(255), None);
    assert_eq!(MarkerType::Spiral.to_repr(), 6);
    assert_eq!(MarkerType::ClearMarkers.to_repr(), 9);
}

#[test]
fn real_values_are_the_eight_placeable_markers() {
    let v = MarkerType::iter_real_values();
    assert_eq!(
        v,
        vec![
            MarkerType::Arrow,
            MarkerType::Circle,
            MarkerType::Heart,
            MarkerType::Square,
            MarkerType::Star,
            MarkerType::Spiral,
            MarkerType::Triangle,
            MarkerType::Cross,
        ]
    );
}

#[test]
fn gamebinds_of_markers() {
    assert_eq!(MarkerType::Arrow.to_place_world_gamebind(), GameBind::SquadMarkerPlaceWorldArrow);
    assert_eq!(MarkerType::Spiral.to_place_world_gamebind(), GameBind::SquadMarkerPlaceWorldSwirl);
    assert_eq!(MarkerType::ClearMarkers.to_place_world_gamebind(), GameBind::SquadMarkerClearAllWorld);
    assert_eq!(MarkerType::Cross.to_set_agent_gamebind(), GameBind::SquadMarkerSetAgentCross);
    assert_eq!(MarkerType::Heart.to_set_agent_gamebind(), GameBind::SquadMarkerSetAgentHeart);
    assert_eq!(MarkerType::ClearMarkers.to_set_agent_gamebind(), GameBind::SquadMarkerClearAllWorld);
    // Every placeable marker has a world binding different from its agent binding.
    for m in MarkerType::iter_real_values() {
        assert_ne!(m.to_place_world_gamebind(), m.to_set_agent_gamebind());
    }
}

#[test]
fn combined_name_and_author() {
    assert_eq!(set("Vale Guardian", 1062, Some("Kitty")).combined(), "Vale Guardian\nAuthor: Kitty");
    assert_eq!(set("Gorseval", 1062, None).combined(), "Gorseval\nUnknown Author");
}

#[test]
fn marker_glob() {
    assert_eq!(RuntimeMarkers::<Pos, u64>::glob(), "**/*.markers");
}

#[test]
fn markers_grouped_by_category() {
    let own = RuntimeMarkers {
        path: Some("a.markers".to_string()),
        file: MarkerFormats::File(MarkerFile {
            last_edit: 0u64,
            path: None,
            categories: vec![
                MarkerCategory { name: "Raids".to_string(), marker_sets: vec![set("VG", 1062, None), set("Gors", 1062, None)] },
                MarkerCategory { name: "Strikes".to_string(), marker_sets: vec![set("Boneskinner", 1339, None)] },
            ],
        }),
    };
    let custom = RuntimeMarkers {
        path: Some("b.markers".to_string()),
        file: MarkerFormats::Custom(CustomMarkers {
            version: "1".to_string(),
            path: None,
            squad_marker_preset: vec![set("Preset", 15, Some("Someone"))],
        }),
    };
    let more = RuntimeMarkers {
        path: None,
        file: MarkerFormats::File(MarkerFile {
            last_edit: 1u64,
            path: None,
            categories: vec![MarkerCategory { name: "Raids".to_string(), marker_sets: vec![set("Sabetha", 1062, None)] }],
        }),
    };
    let packs = vec![own, custom, more];
    let grouped: KeyedList<Vec<MarkerSet<Pos>>> = RuntimeMarkers::markers(&packs);
    assert_eq!(grouped.len(), 3);
    let raids = grouped.get("Raids").unwrap();
    let names: Vec<&str> = raids.iter().map(|s| s.name.as_str()).collect();
    assert_eq!(names, vec!["VG", "Gors", "Sabetha"]);
    assert_eq!(raids[0].path.as_deref(), Some("a.markers"));
    assert_eq!(raids[2].path, None);
    let custom = grouped.get("Custom").unwrap();
    assert_eq!(custom.len(), 1);
    assert_eq!(custom[0].name, "Preset");
    assert_eq!(custom[0].path.as_deref(), Some("b.markers"));
    assert_eq!(grouped.get("Strikes").unwrap()[0].name, "Boneskinner");
    assert!(grouped.get("Fractals").is_none());
}

#[test]
fn markers_keep_empty_categories() {
    let own = RuntimeMarkers {
        path: Some("c.markers".to_string()),
        file: MarkerFormats::File(MarkerFile {
            last_edit: 0u64,
            path: None,
            categories: vec![
                MarkerCategory { name: "Fractals".to_string(), marker_sets: vec![] },
                MarkerCategory { name: "Raids".to_string(), marker_sets: vec![set("VG", 1062, None)] },
            ],
        }),
    };
    let custom = RuntimeMarkers {
        path: None,
        file: MarkerFormats::Custom(CustomMarkers { version: "1".to_string(), path: None, squad_marker_preset: vec![] }),
    };
    let packs = vec![own, custom];
    let grouped: KeyedList<Vec<MarkerSet<Pos>>> = RuntimeMarkers::markers(&packs);
    assert_eq!(grouped.len(), 3);
    assert!(grouped.get("Fractals").unwrap().is_empty());
    assert!(grouped.get("Custom").unwrap().is_empty());
    assert_eq!(grouped.get("Raids").unwrap().len(), 1);
}

#[test]
fn marker_set_clone_keeps_everything() {
    let s = set("VG", 1062, Some("Kitty"));
    let c = s.clone();
    assert_eq!(c.name, s.name);
    assert_eq!(c.author, s.author);
    assert_eq!(c.map_id, s.map_id);
    assert_eq!(c.markers.len(), 1);
    assert_eq!(c.markers[0].position, [1.0, 2.0, 3.0]);
}

#[test]
fn perspective_and_minimap_placement() {
    assert_eq!(CurrentPerspective::from(true), CurrentPerspective::Global);
    assert_eq!(CurrentPerspective::from(false), CurrentPerspective::Minimap);
    assert_eq!(MinimapPlacement::from(true), MinimapPlacement::Top);
    assert_eq!(MinimapPlacement::from(false), MinimapPlacement::Bottom);
}

#[test]
fn keyed_list_behaves_as_a_map() {
    let mut k: KeyedList<u32> = KeyedList::new();
    assert!(k.is_empty());
    assert_eq!(k.insert("a".to_string(), 1), None);
    assert_eq!(k.insert("b".to_string(), 2), None);
    assert_eq!(k.insert("a".to_string(), 3), Some(1));
    assert_eq!(k.len(), 2);
    assert_eq!(k.get("a"), Some(&3));
    assert!(k.contains_key("b"));
    assert_eq!(k.remove("b"), Some(2));
    assert_eq!(k.remove("b"), None);
    assert_eq!(k.len(), 1);
    k.clear();
    assert!(k.is_empty());
}

#[test]
fn marker_icons() {
    assert_eq!(MarkerType::Arrow.icon_file(), Some("cmdrArrow.png"));
    assert_eq!(MarkerType::Spiral.icon_file(), Some("cmdrSpiral.png"));
    assert_eq!(MarkerType::Blank.icon_file(), None);
    assert_eq!(MarkerType::ClearMarkers.icon_file(), None);
    assert_eq!(MarkerType::iter_real_values().iter().filter(|m| m.icon_file().is_some()).count(), 8);
}

fn own_file() -> MarkerFormats<Pos, u64> {
    MarkerFormats::File(MarkerFile {
        last_edit: 1,
        path: Some("x".to_string()),
        categories: vec![
            MarkerCategory { name: "Raids".to_string(), marker_sets: vec![set("VG", 1062, None), set("Gors", 1062, None)] },
            MarkerCategory { name: "Strikes".to_string(), marker_sets: vec![set("Boneskinner", 1339, None)] },
        ],
    })
}

fn custom_file() -> MarkerFormats<Pos, u64> {
    MarkerFormats::Custom(CustomMarkers {
        version: "1".to_string(),
        path: None,
        squad_marker_preset: vec![set("A", 15, None), set("B", 15, None)],
    })
}

fn categories(f: &MarkerFormats<Pos, u64>) -> Vec<(String, Vec<String>)> {
    match f {
        MarkerFormats::File(f) => f
            .categories
            .iter()
            .map(|c| (c.name.clone(), c.marker_sets.iter().map(|s| s.name.clone()).collect()))
            .collect(),
        MarkerFormats::Custom(c) => vec![("".to_string(), c.squad_marker_preset.iter().map(|s| s.name.clone()).collect())],
    }
}

fn in_category(name: &str, category: Option<&str>) -> MarkerSet<Pos> {
    MarkerSet { category: category.map(|c| c.to_string()), ..set(name, 1062, None) }
}

#[test]
fn appending_marker_sets() {
    let f = append_set(own_file(), in_category("Sab", Some("Raids")), 7).unwrap();
    assert_eq!(
        categories(&f),
        vec![
            ("Raids".to_string(), vec!["VG".to_string(), "Gors".to_string(), "Sab".to_string()]),
            ("Strikes".to_string(), vec!["Boneskinner".to_string()]),
        ]
    );
    match &f {
        MarkerFormats::File(f) => {
            assert_eq!(f.last_edit, 7);
            assert_eq!(f.path.as_deref(), Some("x"));
        },
        _ => panic!("format changed"),
    }
    let f = append_set(own_file(), in_category("Golem", Some("Training")), 7).unwrap();
    assert_eq!(categories(&f)[2], ("Training".to_string(), vec!["Golem".to_string()]));
    assert_eq!(append_set(own_file(), in_category("Sab", None), 7).unwrap_err(), MarkerEditError::NoCategory);
    let c = append_set(custom_file(), in_category("C", None), 7).unwrap();
    assert_eq!(categories(&c)[0].1, vec!["A".to_string(), "B".to_string(), "C".to_string()]);
}

#[test]
fn replacing_and_deleting_marker_sets() {
    let f = replace_set(own_file(), Some("Raids".to_string()), 1, in_category("Sab", Some("Raids")), 3).unwrap();
    assert_eq!(categories(&f)[0].1, vec!["VG".to_string(), "Sab".to_string()]);
    assert_eq!(
        replace_set(own_file(), Some("Raids".to_string()), 2, in_category("Sab", None), 3).unwrap_err(),
        MarkerEditError::NoSet
    );
    assert_eq!(
        replace_set(own_file(), Some("Fractals".to_string()), 0, in_category("Sab", None), 3).unwrap_err(),
        MarkerEditError::NoSet
    );
    assert_eq!(replace_set(own_file(), None, 0, in_category("Sab", None), 3).unwrap_err(), MarkerEditError::NoCategory);
    let c = replace_set(custom_file(), None, 0, in_category("Z", None), 3).unwrap();
    assert_eq!(categories(&c)[0].1, vec!["Z".to_string(), "B".to_string()]);
    let f = delete_set(own_file(), Some("Raids".to_string()), 0, 4).unwrap();
    assert_eq!(categories(&f)[0].1, vec!["Gors".to_string()]);
    assert_eq!(categories(&f)[1].1, vec!["Boneskinner".to_string()]);
    assert_eq!(delete_set(custom_file(), None, 2, 4).unwrap_err(), MarkerEditError::NoSet);
    let c = delete_set(custom_file(), Some("ignored".to_string()), 1, 4).unwrap();
    assert_eq!(categories(&c)[0].1, vec!["A".to_string()]);
}

#[test]
fn saving_from_the_editor() {
    let created = created_file::<Pos, u64>(in_category("New", Some("Raids")), MarkerFiletype::File, 9);
    assert_eq!(categories(&created), vec![("Raids".to_string(), vec!["New".to_string()])]);
    let created = created_file::<Pos, u64>(in_category("New", None), MarkerFiletype::Custom, 9);
    match &created {
        MarkerFormats::Custom(c) => assert_eq!(c.version, "1"),
        _ => panic!("wrong format"),
    }
    let event = MarkerSaveEvent::Edit(in_category("VG2", Some("Raids")), "x".to_string(), Some("Raids".to_string()), 0);
    let f = apply_save(own_file(), event, 5).unwrap();
    assert_eq!(categories(&f)[0].1, vec!["VG2".to_string(), "Gors".to_string()]);
    let event = MarkerSaveEvent::Append(in_category("Sab", Some("Strikes")), "x".to_string());
    let f = apply_save(own_file(), event, 5).unwrap();
    assert_eq!(categories(&f)[1].1, vec!["Boneskinner".to_string(), "Sab".to_string()]);
}

#[test]
fn deleting_the_appended_set_restores_the_file() {
    let f = append_set(own_file(), in_category("Sab", Some("Raids")), 2).unwrap();
    let f = delete_set(f, Some("Raids".to_string()), 2, 3).unwrap();
    assert_eq!(categories(&f), categories(&own_file()));
    let c = append_set(custom_file(), in_category("C", None), 2).unwrap();
    let c = delete_set(c, None, 2, 3).unwrap();
    assert_eq!(categories(&c), categories(&custom_file()));
}
