use crate::scene_path::{
    lemma_scene_split_label, parse_scene, scene_label, scene_label_text, scene_split,
};
use bevy::asset::{AssetPath, ParseAssetPathError};
use vstd::prelude::*;

verus! {

/// Why the engine turns down a string as an asset path: the variants of
/// bevy's `ParseAssetPathError`.
#[derive(Clone, Copy, Debug, PartialEq, Eq, Structural)]
pub enum AssetPathError {
    /// A `#` stands before the `://` that ends the name of the asset source.
    InvalidSourceSyntax,
    /// A `://` stands behind the last `#`, inside the label.
    InvalidLabelSyntax,
    /// The string begins with `://`: the name of the asset source is empty.
    MissingSource,
    /// The string ends with `#`: the label is empty.
    MissingLabel,
}

/// Whether `s` begins with `://`, the mark that ends the name of an asset
/// source.
pub open spec fn starts_with_source_mark(s: Seq<char>) -> bool {
    s.len() >= 3 && s[0] == ':' && s[1] == '/' && s[2] == '/'
}

/// What stands in `file` before its last `#`: the part that the engine
/// keeps when it gives the asset path another label. A `file` without `#`
/// is kept whole.
pub open spec fn asset_stem(file: Seq<char>) -> Seq<char>
    decreases file.len(),
{
    if !file.contains('#') {
        file
    } else if file.last() == '#' {
        file.drop_last()
    } else {
        asset_stem(file.drop_last())
    }
}

/// The stem of `head`, `#` and a `tail` without `#` is `head`.
pub proof fn lemma_asset_stem_split(head: Seq<char>, tail: Seq<char>)
    requires
        !tail.contains('#'),
    ensures
        asset_stem(head + seq!['#'] + tail) == head,
    decreases tail.len(),
{
    let file = head + seq!['#'] + tail;
    assert(file[head.len() as int] == '#');
    if tail.len() == 0 {
        assert(file.drop_last() =~= head);
    } else {
        assert(file.last() == tail.last());
        assert(tail.contains(tail.last()));
        assert(file.drop_last() =~= head + seq!['#'] + tail.drop_last());
        assert forall|i: int| 0 <= i < tail.drop_last().len() implies tail.drop_last()[i]
            != '#' by {
            assert(tail.contains(tail[i]));
        }
        lemma_asset_stem_split(head, tail.drop_last());
    }
}

/// What `labelled_asset` is on a file without `#`: the file, `#` and the
/// label, unless the file begins with `://`.
pub open spec fn plain_labelled_asset(file: Seq<char>, label: Seq<char>) -> Result<
    Seq<char>,
    AssetPathError,
> {
    if starts_with_source_mark(file) {
        Err(AssetPathError::MissingSource)
    } else {
        Ok(file + seq!['#'] + label)
    }
}

/// The text of a result.
pub open spec fn text_of(r: Result<String, AssetPathError>) -> Result<Seq<char>, AssetPathError> {
    match r {
        Ok(s) => Ok(s@),
        Err(e) => Err(e),
    }
}

/// The spelling that bevy's `AssetPath` gives the asset path that it reads
/// from `file`, once `label` has taken the place of the label that was read,
/// or the engine's reason for turning `file` down.
pub uninterp spec fn labelled_asset(file: Seq<char>, label: Seq<char>) -> Result<
    Seq<char>,
    AssetPathError,
>;

/// Calls bevy: `AssetPath::try_parse` reads `file` as an asset path,
/// `AssetPath::with_label` puts `label` in place of the label that was read,
/// if any, and `AssetPath`'s `Display` spells out the outcome.
///
/// Trusted, not proved. The outcome depends on the two strings alone. Where
/// the engine accepts `file`, it spells what stands in `file` before the
/// last `#` as it was written (the whole of a `file` without `#`), then `#`
/// and `label`. A `file` without `#` it turns down only where the file
/// begins with `://`.
#[verifier::external_body]
fn asset_with_label(file: &str, label: &str) -> (r: Result<String, AssetPathError>)
    ensures
        text_of(r) == labelled_asset(file@, label@),
        r matches Ok(asset) ==> asset@ == asset_stem(file@) + seq!['#'] + label@,
        !file@.contains('#') ==> text_of(r) == plain_labelled_asset(file@, label@),
{
    match AssetPath::try_parse(file) {
        Ok(path) => Ok(path.into_owned().with_label(label.to_owned()).to_string()),
        Err(ParseAssetPathError::InvalidSourceSyntax) => Err(AssetPathError::InvalidSourceSyntax),
        Err(ParseAssetPathError::InvalidLabelSyntax) => Err(AssetPathError::InvalidLabelSyntax),
        Err(ParseAssetPathError::MissingSource) => Err(AssetPathError::MissingSource),
        Err(ParseAssetPathError::MissingLabel) => Err(AssetPathError::MissingLabel),
    }
}

/// The asset path under which the engine loads the scene that `scene_path`
/// names: the path that `scene_path` splits into, labelled with the scene.
pub open spec fn scene_asset_text(scene_path: Seq<char>) -> Result<Seq<char>, AssetPathError> {
    labelled_asset(scene_split(scene_path).0, scene_label_text(scene_split(scene_path).1))
}

/// Spells the asset path to load for `scene_path`.
///
/// `models/helmet.gltf` gives `models/helmet.gltf#Scene0`, and
/// `models/helmet.gltf#Scene02` gives `models/helmet.gltf#Scene2`. An asset
/// path that comes out is what stands in the path of `scene_path` before
/// its last `#` (the whole path where it holds none), then `#` and the
/// scene's label, and it names the scene that `scene_path` names. Where the
/// path in `scene_path` holds no `#`, only a path that begins with `://` is
/// turned down.
pub fn scene_asset_path(scene_path: &str) -> (r: Result<String, AssetPathError>)
    ensures
        text_of(r) == scene_asset_text(scene_path@),
        r matches Ok(asset) ==> asset@ == asset_stem(scene_split(scene_path@).0) + seq!['#']
            + scene_label_text(scene_split(scene_path@).1),
        r matches Ok(asset) ==> scene_split(asset@).1 == scene_split(scene_path@).1,
        !scene_split(scene_path@).0.contains('#') ==> text_of(r) == plain_labelled_asset(
            scene_split(scene_path@).0,
            scene_label_text(scene_split(scene_path@).1),
        ),
{
    let (file, index) = parse_scene(scene_path);
    let label = scene_label(index);
    let r = asset_with_label(file.as_str(), label.as_str());
    proof {
        if r is Ok {
            lemma_scene_split_label(asset_stem(file@), index as nat);
        }
    }
    r
}

} // verus!
