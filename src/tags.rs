//! Choosing the tag block of a file and reading its title and track number.
use vstd::prelude::*;

use lofty::file::FileType;
use lofty::file::TaggedFile;
use lofty::file::TaggedFileExt;
use lofty::prelude::Accessor;
use lofty::tag::Tag;

use crate::error::RenameError;

verus! {

#[verifier::external_type_specification]
#[verifier::external_body]
pub struct ExTaggedFile(lofty::file::TaggedFile);

#[verifier::external_type_specification]
#[verifier::external_body]
pub struct ExTag(lofty::tag::Tag);

/// The fields of a tag that the file name is built from.
pub struct TagData {
    pub title: Option<String>,
    pub track: Option<u32>,
}

/// Whether the file's type is a custom one, served by a resolver that a
/// program registers with lofty.
pub uninterp spec fn is_custom_type(f: TaggedFile) -> bool;

/// Whether the file holds a tag of the type its format designates as primary.
pub uninterp spec fn has_primary_tag(f: TaggedFile) -> bool;

/// The file's primary tag, where it has one.
pub uninterp spec fn primary_tag_of(f: TaggedFile) -> Tag;

/// Whether the file holds any tag block.
pub uninterp spec fn has_any_tag(f: TaggedFile) -> bool;

/// The file's first tag block, where it has one.
pub uninterp spec fn first_tag_of(f: TaggedFile) -> Tag;

/// The title a tag holds, if any.
pub uninterp spec fn title_of(t: Tag) -> Option<Seq<char>>;

/// The track number a tag holds, if any.
pub uninterp spec fn track_of(t: Tag) -> Option<u32>;

/// Relies on lofty's `TaggedFileExt::file_type`: the type the file was read as,
/// told apart into custom and built-in types.
#[verifier::external_body]
fn custom_type(f: &TaggedFile) -> (r: bool)
    ensures
        r == is_custom_type(*f),
{
    match f.file_type() {
        FileType::Custom(_) => true,
        _ => false,
    }
}

/// Relies on lofty's `TaggedFileExt::primary_tag`: the tag of the type that
/// the file's format designates as its main one, if the file has it. lofty
/// panics there for a custom file type whose resolver was never registered,
/// so custom types are left out.
#[verifier::external_body]
fn primary_tag(f: &TaggedFile) -> (r: Option<&Tag>)
    requires
        !is_custom_type(*f),
    ensures
        r is Some <==> has_primary_tag(*f),
        r is Some ==> *r->0 == primary_tag_of(*f),
{
    f.primary_tag()
}

/// Relies on lofty's `TaggedFileExt::first_tag`: the first tag block that
/// the file holds, if any.
#[verifier::external_body]
fn first_tag(f: &TaggedFile) -> (r: Option<&Tag>)
    ensures
        r is Some <==> has_any_tag(*f),
        r is Some ==> *r->0 == first_tag_of(*f),
{
    f.first_tag()
}

/// Relies on lofty's `Accessor::title` for `Tag`: the track title, if set.
#[verifier::external_body]
fn tag_title(t: &Tag) -> (r: Option<String>)
    ensures
        opt_string(r) == title_of(*t),
{
    t.title().map(|c| c.into_owned())
}

/// Relies on lofty's `Accessor::track` for `Tag`: the track number, if set.
#[verifier::external_body]
fn tag_track(t: &Tag) -> (r: Option<u32>)
    ensures
        r == track_of(*t),
{
    t.track()
}

/// The characters of an optional string.
pub open spec fn opt_string(s: Option<String>) -> Option<Seq<char>> {
    match s {
        Some(t) => Some(t@),
        None => None,
    }
}

/// Whether `d` holds exactly the title and track number of the tag `t`.
pub open spec fn holds_fields_of(d: TagData, t: Tag) -> bool {
    opt_string(d.title) == title_of(t) && d.track == track_of(t)
}

/// Picks the primary tag's fields where the file has a primary tag, else those
/// of its first tag; fails with `NoTag` where it has neither.
pub fn select_tag(primary: Option<TagData>, first: Option<TagData>) -> (r: Result<TagData, RenameError>)
    ensures
        primary is Some ==> r == Ok::<TagData, RenameError>(primary->0),
        primary is None && first is Some ==> r == Ok::<TagData, RenameError>(first->0),
        primary is None && first is None ==> r == Err::<TagData, RenameError>(RenameError::NoTag),
{
    match primary {
        Some(p) => Ok(p),
        None => match first {
            Some(f) => Ok(f),
            None => Err(RenameError::NoTag),
        },
    }
}

fn fields_of(t: &Tag) -> (r: TagData)
    ensures
        holds_fields_of(r, *t),
{
    TagData { title: tag_title(t), track: tag_track(t) }
}

/// Reads the title and track number of a file's primary tag, or of its first
/// tag where it has no primary one; fails with `NoTag` where it has no tag.
/// The file must not be of a custom type, whose primary tag lofty can only
/// name through a registered resolver.
pub fn extract_tag_data(f: &TaggedFile) -> (r: Result<TagData, RenameError>)
    requires
        !is_custom_type(*f),
    ensures
        r is Ok <==> has_primary_tag(*f) || has_any_tag(*f),
        has_primary_tag(*f) ==> r is Ok && holds_fields_of(r->Ok_0, primary_tag_of(*f)),
        !has_primary_tag(*f) && has_any_tag(*f) ==> r is Ok && holds_fields_of(
            r->Ok_0,
            first_tag_of(*f),
        ),
        !has_primary_tag(*f) && !has_any_tag(*f) ==> r == Err::<TagData, RenameError>(
            RenameError::NoTag,
        ),
{
    match primary_tag(f) {
        Some(t) => select_tag(Some(fields_of(t)), None),
        None => match first_tag(f) {
            Some(t) => select_tag(None, Some(fields_of(t))),
            None => select_tag(None, None),
        },
    }
}

} // verus!
