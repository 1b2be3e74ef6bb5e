use crate::text::{contains, starts_with, text_contains, text_starts_with};
use vstd::prelude::*;

verus! {

/// What `std::path::Path::file_stem` gives for `path`: the final component
/// without its extension, or empty where there is none.
pub uninterp spec fn file_stem_of(path: Seq<char>) -> Seq<char>;

/// What `std::path::Path::extension` gives for `path`, or empty where there is none.
pub uninterp spec fn extension_of(path: Seq<char>) -> Seq<char>;

/// Relies on `std::path::Path::file_stem` for the stem of an archive entry name.
#[verifier::external_body]
fn file_stem(path: &str) -> (r: String)
    ensures
        r@ == file_stem_of(path@),
{
    match std::path::Path::new(path).file_stem() {
        Some(stem) => stem.to_string_lossy().into_owned(),
        None => String::new(),
    }
}

/// Relies on `std::path::Path::extension` for the extension of an archive entry name.
#[verifier::external_body]
fn extension(path: &str) -> (r: String)
    ensures
        r@ == extension_of(path@),
{
    match std::path::Path::new(path).extension() {
        Some(ext) => ext.to_string_lossy().into_owned(),
        None => String::new(),
    }
}

/// A file worth extracting from the Pico CSS archive, by its stem and extension:
/// the licence, or a minified classless stylesheet that is not the conditional one.
pub open spec fn is_css_asset_spec(stem: Seq<char>, extension: Seq<char>) -> bool {
    ||| stem == "LICENSE"@
    ||| {
        &&& extension == "css"@
        &&& starts_with(stem, "pico.classless"@)
        &&& !contains(stem, "conditional"@)
        &&& contains(stem, "min"@)
    }
}

pub fn is_css_asset(stem: &str, extension: &str) -> (r: bool)
    ensures
        r == is_css_asset_spec(stem@, extension@),
{
    if crate::text::same_text(stem, "LICENSE") {
        return true;
    }
    crate::text::same_text(extension, "css") && text_starts_with(stem, "pico.classless")
        && !text_contains(stem, "conditional") && text_contains(stem, "min")
}

/// The archive entries to extract, in archive order.
pub open spec fn selected_assets(names: Seq<Seq<char>>) -> Seq<Seq<char>> {
    names.filter(|n: Seq<char>| is_css_asset_spec(file_stem_of(n), extension_of(n)))
}

/// The names of the archive entries to extract.
pub fn select_css_files(names: &Vec<String>) -> (r: Vec<String>)
    ensures
        r@.map_values(|s: String| s@) == selected_assets(names@.map_values(|s: String| s@)),
{
    let ghost all = names@.map_values(|s: String| s@);
    let mut selected: Vec<String> = Vec::new();
    let n = names.len();
    let mut i: usize = 0;
    while i < n
        invariant
            n == names@.len(),
            all == names@.map_values(|s: String| s@),
            i <= n,
            selected@.map_values(|s: String| s@) == selected_assets(all.subrange(0, i as int)),
        decreases n - i,
    {
        let name = names[i].as_str();
        let stem = file_stem(name);
        let ext = extension(name);
        proof {
            assert(all.subrange(0, i + 1).drop_last() =~= all.subrange(0, i as int));
            reveal(Seq::filter);
        }
        if is_css_asset(stem.as_str(), ext.as_str()) {
            selected.push(names[i].clone());
            assert(selected@.map_values(|s: String| s@) =~= selected_assets(all.subrange(0, i as int)).push(all[i as int]));
        } else {
            assert(selected@.map_values(|s: String| s@) =~= selected_assets(all.subrange(0, i as int)));
        }
        i = i + 1;
    }
    assert(all.subrange(0, n as int) =~= all);
    selected
}

} // verus!
