use audio_rename::error::RenameError;
use audio_rename::extension::{audio_extension, is_supported_extension};
use audio_rename::naming::target_filename;
use audio_rename::process::{decide_rename, Decision, RenameOutcome, RunSummary};
use audio_rename::tags::{extract_tag_data, select_tag, TagData};
use lofty::file::{FileType, TaggedFile};
use lofty::prelude::Accessor;
use lofty::properties::FileProperties;
use lofty::tag::{Tag, TagType};

fn tag(ty: TagType, title: Option<&str>, track: Option<u32>) -> Tag {
    let mut t = Tag::new(ty);
    if let Some(s) = title {
        t.set_title(s.to_string());
    }
    if let Some(n) = track {
        t.set_track(n);
    }
    t
}

#[test]
fn correctly_named_file_is_unchanged() {
    let name = target_filename(Some(1), Some("Intro"), "mp3");
    assert_eq!(decide_rename(&name, &name, true), Decision::Skip(RenameOutcome::SkippedUnchanged));
    assert_eq!(decide_rename("01 - Intro.mp3", &name, false), Decision::Skip(RenameOutcome::SkippedUnchanged));
}

#[test]
fn existing_target_is_never_overwritten() {
    assert_eq!(
        decide_rename("track2.mp3", "01 - Intro.mp3", true),
        Decision::Skip(RenameOutcome::SkippedCollision)
    );
    assert_eq!(decide_rename("track2.mp3", "01 - Intro.mp3", false), Decision::Rename);
}

#[test]
fn end_to_end_rename_then_collision() {
    let mut summary = RunSummary::new();
    let mut existing: Vec<String> = vec!["track1.mp3".to_string(), "track2.mp3".to_string()];
    for current in ["track1.mp3", "track2.mp3"] {
        let file = TaggedFile::new(
            FileType::Mpeg,
            FileProperties::default(),
            vec![tag(TagType::Id3v2, Some("Intro"), Some(1))],
        );
        let tags = extract_tag_data(&file).unwrap();
        let target = target_filename(tags.track, tags.title.as_deref(), "mp3");
        let exists = existing.contains(&target);
        let result = match decide_rename(current, &target, exists) {
            Decision::Skip(o) => Ok(o),
            Decision::Rename => {
                existing.retain(|n| n != current);
                existing.push(target.clone());
                Ok(RenameOutcome::Renamed)
            }
        };
        if current == "track1.mp3" {
            assert_eq!(result, Ok(RenameOutcome::Renamed));
        } else {
            assert_eq!(result, Ok(RenameOutcome::SkippedCollision));
        }
        summary.record(&result);
    }
    assert_eq!(summary, RunSummary { success: 1, skip: 1, error: 0 });
    assert!(existing.contains(&"01 - Intro.mp3".to_string()));
    assert!(existing.contains(&"track2.mp3".to_string()));
}

#[test]
fn unsupported_extension_is_not_processed() {
    assert_eq!(audio_extension(true, Some("txt")), None);
    assert_eq!(audio_extension(true, Some("TXT")), None);
    assert_eq!(audio_extension(true, None), None);
    assert_eq!(audio_extension(false, Some("mp3")), None);
}

#[test]
fn supported_extension_is_lowercased() {
    assert_eq!(audio_extension(true, Some("MP3")), Some("mp3".to_string()));
    assert_eq!(audio_extension(true, Some("Flac")), Some("flac".to_string()));
    for e in ["m4a", "mp3", "flac", "wav", "ogg", "aac", "aiff", "wma", "ape", "opus", "mp4"] {
        assert!(is_supported_extension(e));
    }
    assert!(!is_supported_extension("mp"));
    assert!(!is_supported_extension("MP3"));
}

#[test]
fn primary_tag_is_preferred() {
    let file = TaggedFile::new(
        FileType::Mpeg,
        FileProperties::default(),
        vec![
            tag(TagType::Id3v1, Some("Old"), None),
            tag(TagType::Id3v2, Some("New"), Some(5)),
        ],
    );
    let data = extract_tag_data(&file).unwrap();
    assert_eq!(data.title.as_deref(), Some("New"));
    assert_eq!(data.track, Some(5));
}

#[test]
fn first_tag_is_the_fallback() {
    let file = TaggedFile::new(
        FileType::Mpeg,
        FileProperties::default(),
        vec![tag(TagType::Ape, Some("Only"), None)],
    );
    let data = extract_tag_data(&file).unwrap();
    assert_eq!(data.title.as_deref(), Some("Only"));
    assert_eq!(data.track, None);
}

#[test]
fn file_without_tags_fails() {
    let file = TaggedFile::new(FileType::Flac, FileProperties::default(), vec![]);
    assert!(matches!(extract_tag_data(&file), Err(RenameError::NoTag)));
}

#[test]
fn select_tag_order() {
    let a = TagData { title: Some("A".to_string()), track: Some(1) };
    let b = TagData { title: None, track: Some(2) };
    assert_eq!(select_tag(Some(a), None).unwrap().track, Some(1));
    assert_eq!(select_tag(None, Some(b)).unwrap().track, Some(2));
    assert!(matches!(select_tag(None, None), Err(RenameError::NoTag)));
}

#[test]
fn summary_counts_each_outcome() {
    let mut s = RunSummary::new();
    assert_eq!(s, RunSummary { success: 0, skip: 0, error: 0 });
    s.record(&Ok(RenameOutcome::Renamed));
    s.record(&Ok(RenameOutcome::SkippedUnchanged));
    s.record(&Ok(RenameOutcome::SkippedCollision));
    s.record(&Err(RenameError::NoFileName));
    s.record(&Err(RenameError::Open("x".to_string())));
    s.record(&Err(RenameError::Read("x".to_string())));
    s.record(&Err(RenameError::NoTag));
    s.record(&Err(RenameError::Rename("x".to_string())));
    assert_eq!(s, RunSummary { success: 1, skip: 2, error: 5 });
    assert!(s.can_record());
    let full = RunSummary { success: u64::MAX, skip: 0, error: 0 };
    assert!(!full.can_record());
}

#[test]
fn error_messages_carry_the_reason() {
    assert_eq!(RenameError::NoFileName.message(), "cannot get the file name");
    assert_eq!(RenameError::Open("bad header".to_string()).message(), "cannot open file: bad header");
    assert_eq!(RenameError::Read("eof".to_string()).message(), "cannot read metadata: eof");
    assert_eq!(RenameError::NoTag.message(), "the file holds no metadata tag");
    assert_eq!(RenameError::Rename("denied".to_string()).message(), "rename failed: denied");
}
