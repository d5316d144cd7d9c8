//! A wallpaper that shows one picture.

use vstd::prelude::*;
use vstd::string::*;
use crate::myptmp::common::{
    materialize_template_subtree, materialized, materialized_view, Output, Substitution,
    TemplateError, Templates,
};

verus! {

/// The files of a wallpaper that shows the picture `image_name`, a file of
/// the wallpaper's folder: the template `image`, with `{IMAGE}` on its
/// page replaced by the name.
pub fn generate_image(templates: &Templates, image_name: &str) -> (made: Result<
    Vec<Output>,
    TemplateError,
>)
    ensures
        materialized_view(made) == materialized(
            templates@,
            "image"@,
            seq![("{IMAGE}"@, image_name@)],
        ),
{
    let mut substitutions: Vec<Substitution> = Vec::new();
    substitutions.push((String::from_str("{IMAGE}"), String::from_str(image_name)));
    assert(substitutions.deep_view() =~= seq![("{IMAGE}"@, image_name@)]);
    materialize_template_subtree(templates, "image", &substitutions)
}

} // verus!
