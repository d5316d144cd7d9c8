//! A wallpaper that moves a picture by its depth map.

use vstd::prelude::*;
use vstd::string::*;
use crate::myptmp::common::{
    materialize_template_subtree, materialized, materialized_view, Output, Substitution,
    TemplateError, Templates,
};

verus! {

/// The files of a wallpaper that moves the picture `image_name` by the
/// depth map `depth_name`, both files of the wallpaper's folder: the
/// template `parallax`, with `{IMAGE}`, `{IMAGE_DEPTH}` and
/// `{PARALLAX_STRENGTH}` on its page replaced, in this order, by the two
/// names and by `strength`, the strength of the movement as it is to stand
/// on the page.
pub fn generate_parallax(
    templates: &Templates,
    image_name: &str,
    depth_name: &str,
    strength: &str,
) -> (made: Result<Vec<Output>, TemplateError>)
    ensures
        materialized_view(made) == materialized(
            templates@,
            "parallax"@,
            seq![
                ("{IMAGE}"@, image_name@),
                ("{IMAGE_DEPTH}"@, depth_name@),
                ("{PARALLAX_STRENGTH}"@, strength@),
            ],
        ),
{
    let mut substitutions: Vec<Substitution> = Vec::new();
    substitutions.push((String::from_str("{IMAGE}"), String::from_str(image_name)));
    substitutions.push((String::from_str("{IMAGE_DEPTH}"), String::from_str(depth_name)));
    substitutions.push((String::from_str("{PARALLAX_STRENGTH}"), String::from_str(strength)));
    assert(substitutions.deep_view() =~= seq![
        ("{IMAGE}"@, image_name@),
        ("{IMAGE_DEPTH}"@, depth_name@),
        ("{PARALLAX_STRENGTH}"@, strength@),
    ]);
    materialize_template_subtree(templates, "parallax", &substitutions)
}

} // verus!
