//! Path strings of an import: the assets directory and each file's destination.
use vstd::prelude::*;
use vstd::string::StringExecFns;

verus! {

/// `base` joined with the relative component `name`, as `Path::join` does it:
/// a separator is put between them unless `base` is empty or already ends in one.
pub open spec fn join_spec(base: Seq<char>, name: Seq<char>) -> Seq<char> {
    if base.len() == 0 || base.last() == '/' {
        base + name
    } else {
        base + seq!['/'] + name
    }
}

/// The directory that receives the assets of the project at `project_dir`.
pub open spec fn assets_dir_spec(project_dir: Seq<char>) -> Seq<char> {
    join_spec(project_dir, "assets"@)
}

/// The name a copied file gets when its source path yields no file name.
pub open spec fn default_asset_name() -> Seq<char> {
    "asset"@
}

/// Where a file whose source path yields `file_name` lands inside `assets_dir`.
pub open spec fn destination_spec(assets_dir: Seq<char>, file_name: Option<Seq<char>>) -> Seq<char> {
    match file_name {
        Some(n) => join_spec(assets_dir, n),
        None => join_spec(assets_dir, default_asset_name()),
    }
}

/// What `Path::file_name` gives for a path, as a string.
pub uninterp spec fn file_name_of(path: Seq<char>) -> Option<Seq<char>>;

/// Relies on `std::path::Path::file_name`: the final component of the path,
/// or `None` where the path ends in `..` or has no component. A component of
/// a path read from a `str` is valid UTF-8, so `to_str` only converts.
#[verifier::external_body]
fn path_file_name(path: &str) -> (r: Option<String>)
    ensures
        r is Some == file_name_of(path@) is Some,
        r is Some ==> r->0@ == file_name_of(path@)->0,
{
    std::path::Path::new(path).file_name().and_then(|n| n.to_str()).map(|n| n.to_string())
}

/// `base` joined with the component `name`.
pub fn join(base: &str, name: &str) -> (r: String)
    ensures
        r@ == join_spec(base@, name@),
{
    let n = base.unicode_len();
    let mut r = String::from_str(base);
    if n != 0 && base.get_char(n - 1) != '/' {
        r.append("/");
        proof { reveal_strlit("/"); }
    }
    r.append(name);
    r
}

/// The assets directory of the project at `project_dir`.
pub fn assets_dir(project_dir: &str) -> (r: String)
    ensures
        r@ == assets_dir_spec(project_dir@),
{
    proof { reveal_strlit("assets"); }
    join(project_dir, "assets")
}

/// Where a file whose source path yields `file_name` is copied to.
pub fn asset_destination(assets_dir: &str, file_name: Option<String>) -> (r: String)
    ensures
        r@ == destination_spec(assets_dir@, match file_name { Some(n) => Some(n@), None => None }),
{
    match file_name {
        Some(n) => join(assets_dir, n.as_str()),
        None => {
            proof { reveal_strlit("asset"); }
            join(assets_dir, "asset")
        },
    }
}

/// Where the file at `source` is copied to inside `assets_dir`.
pub fn destination_of(assets_dir: &str, source: &str) -> (r: String)
    ensures
        r@ == destination_spec(assets_dir@, file_name_of(source@)),
{
    let name = path_file_name(source);
    asset_destination(assets_dir, name)
}

} // verus!
