use vstd::prelude::*;
use vstd::string::*;
use crate::error::ShimError;
use crate::text::PATH_SEPARATOR;

verus! {

/// The state root used where the bundle's options name none.
pub const DEFAULT_CONTAINER_ROOT_DIR: &'static str = "/run/containerd/youki";

/// What became of the bundle's root-options file.
pub enum OptionsSource {
    /// There is no such file.
    Missing,
    /// The file exists but could not be read.
    Unreadable(String),
    /// The file was read but is not valid root options.
    Malformed(String),
    /// The file was read and parsed; it may name a root.
    Parsed(Option<String>),
}

/// `part` appended to `base` as a path component: an absolute `part` replaces
/// `base`, and a separator stands between the two unless `base` is empty or
/// already ends with one.
pub open spec fn join_spec(base: Seq<char>, part: Seq<char>) -> Seq<char> {
    if part.len() > 0 && part[0] == PATH_SEPARATOR {
        part
    } else if base.len() == 0 || base.last() == PATH_SEPARATOR {
        base + part
    } else {
        base + seq![PATH_SEPARATOR] + part
    }
}

/// The state root that a source of root options gives for `namespace`, or the
/// error it gives.
pub open spec fn rootdir_spec(source: OptionsSource, namespace: Seq<char>) -> Result<Seq<char>, ShimError> {
    match source {
        OptionsSource::Missing => Ok(join_spec(DEFAULT_CONTAINER_ROOT_DIR@, namespace)),
        OptionsSource::Unreadable(m) => Err(ShimError::Resolution(m)),
        OptionsSource::Malformed(m) => Err(ShimError::Config(m)),
        OptionsSource::Parsed(None) => Ok(join_spec(DEFAULT_CONTAINER_ROOT_DIR@, namespace)),
        OptionsSource::Parsed(Some(root)) => Ok(join_spec(root@, namespace)),
    }
}

/// Appends `part` to `base` as a path component.
pub fn join_path(base: &str, part: &str) -> (r: String)
    ensures
        r@ == join_spec(base@, part@),
{
    let pn = part.unicode_len();
    if pn > 0 && part.get_char(0) == PATH_SEPARATOR {
        return part.to_owned();
    }
    let bn = base.unicode_len();
    let mut r = base.to_owned();
    if !(bn == 0 || base.get_char(bn - 1) == PATH_SEPARATOR) {
        proof {
            reveal_strlit("/");
        }
        r.append("/");
        assert(r@ =~= base@ + seq![PATH_SEPARATOR]);
    }
    r.append(part);
    r
}

/// The per-namespace state root: the root that the bundle's options name, or
/// the default root, with the namespace appended.
pub fn determine_rootdir(source: OptionsSource, namespace: &str) -> (r: Result<String, ShimError>)
    ensures
        match r {
            Ok(s) => rootdir_spec(source, namespace@) == Ok::<Seq<char>, ShimError>(s@),
            Err(e) => rootdir_spec(source, namespace@) == Err::<Seq<char>, ShimError>(e),
        },
{
    match source {
        OptionsSource::Missing => Ok(join_path(DEFAULT_CONTAINER_ROOT_DIR, namespace)),
        OptionsSource::Unreadable(m) => Err(ShimError::Resolution(m)),
        OptionsSource::Malformed(m) => Err(ShimError::Config(m)),
        OptionsSource::Parsed(None) => Ok(join_path(DEFAULT_CONTAINER_ROOT_DIR, namespace)),
        OptionsSource::Parsed(Some(root)) => Ok(join_path(root.as_str(), namespace)),
    }
}

} // verus!
