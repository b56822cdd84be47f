//! Where the configuration lives below the platform's configuration
//! directory.

use std::path::PathBuf;
use vstd::prelude::*;

verus! {

/// The application's identifier, which names its configuration directory.
pub const APPID: &'static str = "cn.pylogmon.pot";

/// The name of the configuration file inside the configuration directory.
pub const CONFIG_FILE: &'static str = "config.toml";

/// `std::path::PathBuf`: an owned path, carried through as it is.
#[verifier::external_type_specification]
#[verifier::external_body]
pub struct ExPathBuf(PathBuf);

/// The components of a path in order, from the prefix or root down, as
/// `Path::components` yields them, each as text. A component that is not
/// Unicode stands here as its lossy reading.
pub uninterp spec fn path_components(path: PathBuf) -> Seq<Seq<char>>;

/// A character that may stand in a plain name.
pub open spec fn is_name_char(c: char) -> bool {
    ||| 'a' <= c <= 'z'
    ||| 'A' <= c <= 'Z'
    ||| '0' <= c <= '9'
    ||| c == '.'
    ||| c == '_'
    ||| c == '-'
}

/// A plain name is a file or directory name that every platform reads as one
/// ordinary component: letters, digits, `.`, `_` and `-`, and not dots alone.
pub open spec fn is_plain_name(name: Seq<char>) -> bool {
    &&& forall|i: int| 0 <= i < name.len() ==> is_name_char(#[trigger] name[i])
    &&& exists|i: int| 0 <= i < name.len() && #[trigger] name[i] != '.'
}

/// `PathBuf::push` with a plain name as its argument: the path is extended
/// by one component, the name, and keeps the components it had. With other
/// arguments `push` may replace the path or add several components at once;
/// the precondition leaves those out.
#[verifier::external_body]
fn push_name(path: &mut PathBuf, name: &str)
    requires
        is_plain_name(name@),
    ensures
        path_components(*final(path)) == path_components(*old(path)).push(name@),
{
    path.push(name)
}

/// The application identifier is a plain name.
proof fn lemma_appid_is_plain()
    ensures
        is_plain_name(APPID@),
{
    reveal_strlit("cn.pylogmon.pot");
    assert(APPID@[0] != '.');
}

/// The configuration file's name is a plain name.
proof fn lemma_config_file_is_plain()
    ensures
        is_plain_name(CONFIG_FILE@),
{
    reveal_strlit("config.toml");
    assert(CONFIG_FILE@[0] != '.');
}

/// The application's configuration directory: the directory named by the
/// application identifier, directly below the platform's configuration
/// directory.
pub fn get_app_config_dir(platform_dir: PathBuf) -> (dir: PathBuf)
    ensures
        path_components(dir) == path_components(platform_dir).push(APPID@),
{
    let mut dir = platform_dir;
    proof {
        lemma_appid_is_plain();
    }
    push_name(&mut dir, APPID);
    dir
}

/// The configuration file: `config.toml` inside the application's
/// configuration directory.
pub fn get_app_config_file(platform_dir: PathBuf) -> (file: PathBuf)
    ensures
        path_components(file) == path_components(platform_dir).push(APPID@).push(CONFIG_FILE@),
{
    let mut file = get_app_config_dir(platform_dir);
    proof {
        lemma_config_file_is_plain();
    }
    push_name(&mut file, CONFIG_FILE);
    file
}

} // verus!
