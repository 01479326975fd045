use vstd::prelude::*;

verus! {

/// The label of the first scene inside a model file.
pub const SCENE_LABEL: &'static str = "Scene0";

/// The label of the first animation clip inside a model file.
pub const ANIMATION_LABEL: &'static str = "Animation0";

/// The path of a labelled sub-asset: the file's path, `#`, then the label.
pub open spec fn labelled_path(path: Seq<char>, label: Seq<char>) -> Seq<char> {
    path + seq!['#'] + label
}

/// Builds the path that names one labelled part of a model file, such as
/// `model.glb#Scene0`.
pub fn asset_label(path: &str, label: &str) -> (r: String)
    ensures
        r@ == labelled_path(path@, label@),
{
    proof {
        reveal_strlit("#");
    }
    String::from_str(path).concat("#").concat(label)
}

/// The clip to start when a model's scene is ready: the first one, or none
/// when the model has no clip.
pub fn first_clip<T: Copy>(clips: &Vec<T>) -> (r: Option<T>)
    ensures
        clips@.len() == 0 ==> r is None,
        clips@.len() > 0 ==> r == Some(clips@[0]),
{
    if clips.len() == 0 {
        None
    } else {
        Some(clips[0])
    }
}

} // verus!
