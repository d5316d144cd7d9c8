//! A wallpaper that plays one film.

use vstd::prelude::*;
use vstd::string::*;
use crate::myptmp::common::{
    materialize_template_subtree, materialized, materialized_view, Output, Substitution,
    TemplateError, Templates,
};

verus! {

/// The files of a wallpaper that plays the film `video_name`, a file of the
/// wallpaper's folder: the template `video`, with `{VIDEO}` on its page
/// replaced by the name.
pub fn generate_video(templates: &Templates, video_name: &str) -> (made: Result<
    Vec<Output>,
    TemplateError,
>)
    ensures
        materialized_view(made) == materialized(
            templates@,
            "video"@,
            seq![("{VIDEO}"@, video_name@)],
        ),
{
    let mut substitutions: Vec<Substitution> = Vec::new();
    substitutions.push((String::from_str("{VIDEO}"), String::from_str(video_name)));
    assert(substitutions.deep_view() =~= seq![("{VIDEO}"@, video_name@)]);
    materialize_template_subtree(templates, "video", &substitutions)
}

} // verus!
