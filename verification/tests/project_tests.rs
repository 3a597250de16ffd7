use audioforge::awc::{AwcChunk, AwcEntry, AwcPack, AwcPackType};
use audioforge::dat54::Header;
use audioforge::errors::SplitError;
use audioforge::paths::ProjPath;
use audioforge::project::{sort_packs_by_name, Project};
use audioforge::state::{MenuEntry, State};
use audioforge::xml::{InlineValue, Unk, Value};

fn path_of(segments: &[&str]) -> ProjPath {
    let mut p = ProjPath::new();
    for s in segments {
        p.push(s.to_string());
    }
    p
}

fn pack(name: &str) -> AwcPack {
    AwcPack { name: name.to_string(), pack_type: AwcPackType::Simple, entries: vec![] }
}

#[test]
fn strip_prefix_inside_project() {
    let proj = path_of(&["home", "proj"]);
    let full = path_of(&["home", "proj", "awc_packs", "drums"]);
    let rel = full.strip_prefix(&proj).unwrap();
    assert_eq!(rel, path_of(&["awc_packs", "drums"]));
}

#[test]
fn strip_prefix_outside_project_is_rejected() {
    let proj = path_of(&["home", "proj"]);
    let outside = path_of(&["tmp", "drums"]);
    assert_eq!(outside.strip_prefix(&proj), Err(SplitError::PathNotUnderProject));
    let shorter = path_of(&["home"]);
    assert_eq!(shorter.strip_prefix(&proj), Err(SplitError::PathNotUnderProject));
}

#[test]
fn entry_from_probed_file() {
    let proj = path_of(&["home", "proj"]);
    let dir = path_of(&["home", "proj", "awc_packs", "mypack"]);
    let entry = AwcEntry::from_file(&proj, &dir, "kick", 44100, 2).unwrap();
    assert_eq!(entry.name, "kick");
    assert_eq!(entry.path, path_of(&["awc_packs", "mypack", "kick.wav"]));
    assert!(!entry.looped);
    assert_eq!(entry.sample_rate, 44100);
    assert_eq!(entry.samples, 88_200);
    assert_eq!(entry.headers, Header::default());
}

#[test]
fn entry_outside_project_is_rejected() {
    let proj = path_of(&["home", "proj"]);
    let dir = path_of(&["elsewhere"]);
    assert_eq!(
        AwcEntry::from_file(&proj, &dir, "kick", 44100, 2),
        Err(SplitError::PathNotUnderProject)
    );
}

#[test]
fn entry_expands_to_left_and_right_streams() {
    let proj = path_of(&["p"]);
    let dir = path_of(&["p", "d"]);
    let entry = AwcEntry::from_file(&proj, &dir, "kick", 48000, 3).unwrap();
    let streams = entry.to_xml_stream();
    assert_eq!(streams.len(), 2);
    assert_eq!(streams[0].name.value, "kick_left");
    assert_eq!(streams[0].file_name.value, "kick_left.wav");
    assert_eq!(streams[1].name.value, "kick_right");
    assert_eq!(streams[1].file_name.value, "kick_right.wav");
    for stream in &streams {
        assert_eq!(stream.chunks.item.len(), 3);
        assert!(matches!(stream.chunks.item[0], AwcChunk::Peak));
        assert!(matches!(stream.chunks.item[1], AwcChunk::Data));
        match &stream.chunks.item[2] {
            AwcChunk::Format(f) => {
                assert_eq!(f.codec.value, "ADPCM");
                assert_eq!(f.samples.value, 144_000);
                assert_eq!(f.sample_rate.value, 48000);
                assert_eq!(f.headroom.value, -161);
                assert_eq!(f.play_begin.value, 0);
                assert_eq!(f.play_end.value, 0);
                assert_eq!(f.loop_begin.value, 0);
                assert_eq!(f.loop_end.value, 0);
                assert_eq!(f.loop_point.value, -1);
                assert_eq!(f.peak.unk, "0");
            }
            other => panic!("expected a format chunk, found {:?}", other),
        }
    }
}

#[test]
fn add_entry_appends_to_pack() {
    let proj = path_of(&["p"]);
    let dir = path_of(&["p", "d"]);
    let mut pack = pack("drums");
    pack.add_entry(&proj, &dir, "kick", 44100, 1).unwrap();
    pack.add_entry(&proj, &dir, "snare", 44100, 1).unwrap();
    assert_eq!(pack.entries.len(), 2);
    assert_eq!(pack.entries[0].name, "kick");
    assert_eq!(pack.entries[1].name, "snare");
    assert_eq!(
        pack.add_entry(&path_of(&["q"]), &dir, "hat", 44100, 1),
        Err(SplitError::PathNotUnderProject)
    );
    assert_eq!(pack.entries.len(), 2);
}

#[test]
fn packs_are_sorted_by_name() {
    let mut project = Project { location: path_of(&["p"]), awc_info: vec![] };
    project.add_awc_pack(pack("weapons"));
    project.add_awc_pack(pack("ambient"));
    project.add_awc_pack(pack("music"));
    let names: Vec<&str> = project.awc_info.iter().map(|p| p.name.as_str()).collect();
    assert_eq!(names, vec!["ambient", "music", "weapons"]);
}

#[test]
fn sorting_keeps_every_pack() {
    let mut packs = vec![pack("b"), pack("a"), pack("c"), pack("a")];
    sort_packs_by_name(&mut packs);
    let names: Vec<&str> = packs.iter().map(|p| p.name.as_str()).collect();
    assert_eq!(names, vec!["a", "a", "b", "c"]);
}

#[test]
fn descriptor_document_for_simple_pack() {
    let proj = path_of(&["p"]);
    let dir = path_of(&["p", "d"]);
    let mut drum_pack = pack("drums");
    drum_pack.add_entry(&proj, &dir, "kick", 44100, 1).unwrap();
    drum_pack.add_entry(&proj, &dir, "snare", 44100, 1).unwrap();
    let project = Project { location: proj, awc_info: vec![drum_pack] };
    let xml = project.build_awc_xml(0);
    assert_eq!(xml.version.value, 1);
    assert_eq!(xml.chunk_indices.value, "True");
    assert_eq!(xml.streams.item.len(), 4);
    assert_eq!(xml.streams.item[0].name.value, "kick_left");
    assert_eq!(xml.streams.item[1].name.value, "kick_right");
    assert_eq!(xml.streams.item[2].name.value, "snare_left");
    assert_eq!(xml.streams.item[3].name.value, "snare_right");
}

#[test]
fn header_default_values() {
    let h = Header::default();
    assert_eq!(h.volume, 100);
    assert_eq!(h.volume_curve, "C2770146");
    assert_eq!(h.volume_curve_distance, 5);
    assert_eq!(h.category, "02C7B342");
    assert_eq!(h.doppler_factor, None);
    assert_eq!(h.attack_time, None);
    assert_eq!(h.release_time, None);
    assert_eq!(h.unk20, 0);
    assert_eq!(h.echo_x, None);
    assert_eq!(h.echo_y, None);
    assert_eq!(h.echo_z, None);
}

#[test]
fn pack_type_labels() {
    assert_eq!(AwcPackType::Simple.to_string(), "Simple (Not-streamed)");
    assert_eq!(AwcPackType::Radio.to_string(), "Radio (Streamed)");
    assert_eq!(AwcPackType::default(), AwcPackType::Simple);
}

#[test]
fn menu_labels() {
    assert_eq!(MenuEntry::ProjectSelector.label(), None);
    assert_eq!(MenuEntry::AwcGenerator.label(), Some("AWC Generator"));
    assert_eq!(MenuEntry::OcclGenerator.label(), Some("Audio Occlusion"));
}

#[test]
fn menu_changes_only_with_open_project() {
    let mut state = State::default();
    assert_eq!(state.active_menu, MenuEntry::ProjectSelector);
    state.change_menu(MenuEntry::AwcGenerator);
    assert_eq!(state.active_menu, MenuEntry::ProjectSelector);
    state.set_project(Project { location: path_of(&["p"]), awc_info: vec![] });
    state.change_menu(MenuEntry::AwcGenerator);
    assert_eq!(state.active_menu, MenuEntry::AwcGenerator);
    state.close_project();
    assert!(state.active_project.is_none());
}

#[test]
fn path_building_blocks() {
    let mut p = ProjPath::new();
    assert!(p.segments.is_empty());
    p.push("home".to_string());
    let q = p.join("proj".to_string());
    assert_eq!(q, path_of(&["home", "proj"]));
    assert_eq!(p, path_of(&["home"]));
    assert_eq!(q.duplicate(), q);
    // a path is a prefix of itself: nothing remains
    assert_eq!(q.strip_prefix(&q), Ok(ProjPath::new()));
}

#[test]
fn generated_output_layout() {
    let proj = path_of(&["home", "proj"]);
    assert_eq!(
        proj.split_output_dir("kick"),
        path_of(&["home", "proj", "output", "awc", ".packs", "kick"])
    );
    assert_eq!(
        proj.pack_descriptor_path("drums"),
        path_of(&["home", "proj", "output", "awc", ".packs", "drums.xml"])
    );
}

#[test]
fn xml_value_wrappers() {
    assert_eq!(Value::new(7u8).value, 7);
    assert_eq!(InlineValue::new("abc").value, "abc");
    assert_eq!(Unk::new("0").unk, "0");
}
