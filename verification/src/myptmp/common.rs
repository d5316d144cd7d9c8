//! What the generators share: the template files, the place of a generated
//! wallpaper, and the files that a template gives.

use vstd::prelude::*;
use vstd::string::*;
use vstd::utf8::{decode_utf8, encode_utf8, valid_utf8};
use crate::text::{
    ends_with, ends_with_char, has_char, join, joined, replace, replaced, strip_prefix,
};

verus! {

/// A template file: its path below the template folder, with `/` between
/// the names, and what it holds.
#[derive(Debug, Clone, PartialEq, Eq)]
pub struct Asset {
    pub path: String,
    pub data: Vec<u8>,
}

/// The view of [`Asset`]: every text in it as the sequence of its characters.
pub struct AssetView {
    pub path: Seq<char>,
    pub data: Seq<u8>,
}

impl View for Asset {
    type V = AssetView;

    open spec fn view(&self) -> AssetView {
        AssetView { path: self.path@, data: self.data@ }
    }
}

/// The template files, in the order in which they are gone through.
#[derive(Debug, Clone, PartialEq, Eq)]
pub struct Templates {
    pub assets: Vec<Asset>,
}

impl View for Templates {
    type V = Seq<AssetView>;

    open spec fn view(&self) -> Seq<AssetView> {
        self.assets@.map_values(|a: Asset| a@)
    }
}

/// A file of a generated wallpaper: its path below the wallpaper's folder,
/// and what it holds.
#[derive(Debug, Clone, PartialEq, Eq)]
pub struct Output {
    pub path: String,
    pub data: Vec<u8>,
}

/// The view of [`Output`]: every text in it as the sequence of its characters.
pub struct OutputView {
    pub path: Seq<char>,
    pub data: Seq<u8>,
}

impl View for Output {
    type V = OutputView;

    open spec fn view(&self) -> OutputView {
        OutputView { path: self.path@, data: self.data@ }
    }
}

/// The views of `files`, in their order.
pub open spec fn output_views(files: Seq<Output>) -> Seq<OutputView> {
    files.map_values(|f: Output| f@)
}

/// Where a generated wallpaper is put. Without a wish it goes below the
/// current folder under the template's name; a bare name is a folder below
/// the current one; a path that ends with `/` or `\` is the folder to put
/// it in under the template's name; any other path is the place itself.
pub open spec fn dest_dir(path: Option<Seq<char>>, default_name: Seq<char>) -> Seq<char> {
    match path {
        None => joined("."@, default_name),
        Some(wish) => {
            if !wish.contains('/') && !wish.contains('\\') {
                joined("."@, wish)
            } else if ends_with(wish, '/') || ends_with(wish, '\\') {
                joined(wish, default_name)
            } else {
                wish
            }
        },
    }
}

/// Where a generated wallpaper is put: the folder to create.
pub fn create_dest_dir(path: Option<&str>, default_name: &str) -> (dir: String)
    ensures
        dir@ == dest_dir(
            match path {
                Some(wish) => Some(wish@),
                None => None,
            },
            default_name@,
        ),
{
    match path {
        None => join(".", default_name),
        Some(wish) => {
            if !has_char(wish, '/') && !has_char(wish, '\\') {
                join(".", wish)
            } else if ends_with_char(wish, '/') || ends_with_char(wish, '\\') {
                join(wish, default_name)
            } else {
                String::from_str(wish)
            }
        },
    }
}

/// Why a template gives no wallpaper.
#[derive(Debug, Clone, Copy, PartialEq, Eq)]
pub enum TemplateError {
    /// The template's `index.html` is not UTF-8.
    IndexNotUtf8,
}

/// A placeholder and the text that takes its place.
pub type Substitution = (String, String);

/// `prefix` as the start of the paths of a subtree: with `/` at its end.
pub open spec fn subtree(prefix: Seq<char>) -> Seq<char> {
    if ends_with(prefix, '/') {
        prefix
    } else {
        prefix + seq!['/']
    }
}

/// `text` once each placeholder, in the order of `substitutions`, has been
/// replaced wherever it occurs.
pub open spec fn rewritten(text: Seq<char>, substitutions: Seq<(Seq<char>, Seq<char>)>) -> Seq<char>
    decreases substitutions.len(),
{
    if substitutions.len() == 0 {
        text
    } else {
        replaced(
            rewritten(text, substitutions.drop_last()),
            substitutions.last().0,
            substitutions.last().1,
        )
    }
}

/// What a template file gives to a wallpaper made from the subtree at
/// `start`: nothing where it lies outside; else a file at the rest of its
/// path, which for `index.html` holds the page with the placeholders
/// replaced and for any other file what the template file holds.
pub open spec fn output_of(
    asset: AssetView,
    start: Seq<char>,
    substitutions: Seq<(Seq<char>, Seq<char>)>,
) -> Option<Result<OutputView, TemplateError>> {
    if !start.is_prefix_of(asset.path) {
        None
    } else {
        let path = asset.path.skip(start.len() as int);
        if path != "index.html"@ {
            Some(Ok(OutputView { path, data: asset.data }))
        } else if valid_utf8(asset.data) {
            Some(
                Ok(
                    OutputView {
                        path,
                        data: encode_utf8(rewritten(decode_utf8(asset.data), substitutions)),
                    },
                ),
            )
        } else {
            Some(Err(TemplateError::IndexNotUtf8))
        }
    }
}

/// What the first `count` template files give, in their order; the first
/// error where one of them gives an error.
pub open spec fn outputs_upto(
    assets: Seq<AssetView>,
    start: Seq<char>,
    substitutions: Seq<(Seq<char>, Seq<char>)>,
    count: int,
) -> Result<Seq<OutputView>, TemplateError>
    decreases count,
{
    if count <= 0 {
        Ok(Seq::empty())
    } else {
        match outputs_upto(assets, start, substitutions, count - 1) {
            Err(e) => Err(e),
            Ok(files) => match output_of(assets[count - 1], start, substitutions) {
                None => Ok(files),
                Some(Err(e)) => Err(e),
                Some(Ok(file)) => Ok(files.push(file)),
            },
        }
    }
}

/// The files of a wallpaper made from the subtree `prefix` of the
/// templates.
pub open spec fn materialized(
    assets: Seq<AssetView>,
    prefix: Seq<char>,
    substitutions: Seq<(Seq<char>, Seq<char>)>,
) -> Result<Seq<OutputView>, TemplateError> {
    outputs_upto(assets, subtree(prefix), substitutions, assets.len() as int)
}

/// The views of the files, or the error.
pub open spec fn materialized_view(made: Result<Vec<Output>, TemplateError>) -> Result<
    Seq<OutputView>,
    TemplateError,
> {
    match made {
        Ok(files) => Ok(output_views(files@)),
        Err(e) => Err(e),
    }
}

proof fn lemma_error_stays(
    assets: Seq<AssetView>,
    start: Seq<char>,
    substitutions: Seq<(Seq<char>, Seq<char>)>,
    failed: int,
    count: int,
)
    requires
        0 <= failed <= count,
        outputs_upto(assets, start, substitutions, failed) is Err,
    ensures
        outputs_upto(assets, start, substitutions, count) == outputs_upto(
            assets,
            start,
            substitutions,
            failed,
        ),
    decreases count - failed,
{
    if failed < count {
        lemma_error_stays(assets, start, substitutions, failed, count - 1);
    }
}

/// Replaces each placeholder in turn.
pub fn rewrite(text: &str, substitutions: &Vec<Substitution>) -> (out: String)
    ensures
        out@ == rewritten(text@, substitutions.deep_view()),
{
    let mut out = String::from_str(text);
    let mut i: usize = 0;
    while i < substitutions.len()
        invariant
            i <= substitutions@.len(),
            out@ == rewritten(text@, substitutions.deep_view().take(i as int)),
        decreases substitutions@.len() - i,
    {
        let ghost done = substitutions.deep_view().take(i as int);
        let ghost next = substitutions.deep_view().take(i + 1);
        assert(next.drop_last() =~= done);
        assert(next.last() == substitutions.deep_view()[i as int]);
        out = replace(out.as_str(), substitutions[i].0.as_str(), substitutions[i].1.as_str());
        i += 1;
    }
    assert(substitutions.deep_view().take(i as int) =~= substitutions.deep_view());
    out
}

/// The files of a wallpaper made from the subtree `prefix` of the
/// templates, `prefix` with or without `/` at its end.
pub fn materialize_template_subtree(
    templates: &Templates,
    prefix: &str,
    substitutions: &Vec<Substitution>,
) -> (made: Result<Vec<Output>, TemplateError>)
    ensures
        materialized_view(made) == materialized(templates@, prefix@, substitutions.deep_view()),
{
    let mut start = String::from_str(prefix);
    if !ends_with_char(prefix, '/') {
        start.append("/");
        proof {
            reveal_strlit("/");
            assert("/"@ =~= seq!['/']);
        }
    }
    assert(start@ == subtree(prefix@));
    let mut files: Vec<Output> = Vec::new();
    let mut i: usize = 0;
    assert(output_views(files@) =~= Seq::<OutputView>::empty());
    while i < templates.assets.len()
        invariant
            i <= templates.assets@.len(),
            templates@.len() == templates.assets@.len(),
            start@ == subtree(prefix@),
            outputs_upto(templates@, start@, substitutions.deep_view(), i as int) == Ok::<
                Seq<OutputView>,
                TemplateError,
            >(output_views(files@)),
        decreases templates.assets@.len() - i,
    {
        let asset = &templates.assets[i];
        assert(templates@[i as int] == asset@);
        let ghost done = output_views(files@);
        match strip_prefix(asset.path.as_str(), start.as_str()) {
            None => {},
            Some(path) => {
                if *path == *"index.html" {
                    match core::str::from_utf8(asset.data.as_slice()) {
                        Err(_) => {
                            proof {
                                lemma_error_stays(
                                    templates@,
                                    start@,
                                    substitutions.deep_view(),
                                    i + 1,
                                    templates@.len() as int,
                                );
                            }
                            return Err(TemplateError::IndexNotUtf8);
                        },
                        Ok(page) => {
                            let page = rewrite(page, substitutions);
                            files.push(
                                Output {
                                    path: String::from_str(path),
                                    data: page.as_str().as_bytes_vec(),
                                },
                            );
                        },
                    }
                } else {
                    files.push(Output { path: String::from_str(path), data: asset.data.clone() });
                }
                assert(output_views(files@) =~= done.push(files@.last()@));
            },
        }
        i += 1;
    }
    Ok(files)
}

} // verus!
