//! Where client and server meet.

use crate::text;
use std::path::PathBuf;
use vstd::prelude::*;

verus! {

/// The name of the local socket.
pub open spec fn socket_name() -> Seq<char> {
    "mii-sound.sock"@
}

/// The file of the local socket.
#[derive(Debug)]
pub enum SocketPath {
    /// This name in the user's runtime directory, which is this.
    InRuntimeDir(PathBuf, &'static str),
    /// This path.
    At(String),
}

/// The path of the local socket of a user without a runtime directory.
pub open spec fn fallback_path(uid: Option<u32>) -> Seq<char> {
    match uid {
        Some(id) => "/tmp/mii-sound-"@ + text::decimal(id as nat) + ".sock"@,
        None => socket_name(),
    }
}

/// Where the file of the local socket is: in the user's runtime directory if
/// there is one, else in the directory for temporary files, under a name that
/// no other user has, or in the current directory where users have no number.
pub fn default_socket_path(runtime_dir: Option<PathBuf>, uid: Option<u32>) -> (p: SocketPath)
    ensures
        match (runtime_dir, p) {
            (Some(dir), SocketPath::InRuntimeDir(d, name)) => d == dir && name@ == socket_name(),
            (None, SocketPath::At(path)) => path@ == fallback_path(uid),
            _ => false,
        },
{
    match (runtime_dir, uid) {
        (Some(dir), _) => SocketPath::InRuntimeDir(dir, "mii-sound.sock"),
        (None, Some(id)) => {
            let mut path = text::label_number("/tmp/mii-sound-", id as u64);
            path.append(".sock");
            SocketPath::At(path)
        },
        (None, None) => SocketPath::At("mii-sound.sock".to_owned()),
    }
}

/// What the local socket goes by.
#[derive(Debug)]
pub enum SocketName {
    /// A path in the file system.
    Path(PathBuf),
    /// A name that is no path.
    Namespaced(&'static str),
}

/// What the local socket goes by.
pub enum SocketNameView {
    Path(PathBuf),
    Namespaced(Seq<char>),
}

impl View for SocketName {
    type V = SocketNameView;

    open spec fn view(&self) -> SocketNameView {
        match self {
            SocketName::Path(path) => SocketNameView::Path(*path),
            SocketName::Namespaced(name) => SocketNameView::Namespaced(name@),
        }
    }
}

/// What the local socket goes by, for client and server alike: the path that
/// the user gave, else a name that is no path where there are such names, else
/// the default path.
pub fn resolve_name(custom: Option<PathBuf>, namespaces: bool, fallback: PathBuf) -> (n:
    SocketName)
    ensures
        n@ == match custom {
            Some(path) => SocketNameView::Path(path),
            None => if namespaces {
                SocketNameView::Namespaced(socket_name())
            } else {
                SocketNameView::Path(fallback)
            },
        },
{
    match custom {
        Some(path) => SocketName::Path(path),
        None => if namespaces {
            SocketName::Namespaced("mii-sound.sock")
        } else {
            SocketName::Path(fallback)
        },
    }
}

/// The message for a path that cannot be the socket's.
pub fn invalid_socket_path(path: &str, reason: &str) -> (msg: String)
    ensures
        msg@ == "invalid socket path "@ + path@ + ": "@ + reason@,
{
    let mut msg = text::join("invalid socket path ", path);
    msg.append(": ");
    msg.append(reason);
    msg
}

/// The message for a name that cannot be the socket's.
pub fn invalid_socket_name(reason: &str) -> (msg: String)
    ensures
        msg@ == "invalid namespaced socket name: "@ + reason@,
{
    text::join("invalid namespaced socket name: ", reason)
}

/// The token for the network, given what the environment says.
pub fn token_from_env(set: Option<String>) -> (r: Result<String, &'static str>)
    ensures
        match (set, r) {
            (Some(t), Ok(token)) => token@ == t@,
            (None, Err(msg)) => msg@ == "$TOKEN env var must be set for network mode"@,
            _ => false,
        },
{
    match set {
        Some(t) => Ok(t),
        None => Err("$TOKEN env var must be set for network mode"),
    }
}

/// Two users without a runtime directory never share a socket.
pub proof fn sockets_are_apart(a: u32, b: u32)
    requires
        a != b,
    ensures
        fallback_path(Some(a)) != fallback_path(Some(b)),
{
    let head = "/tmp/mii-sound-"@;
    let tail = ".sock"@;
    let x = text::decimal(a as nat);
    let y = text::decimal(b as nat);
    if head + x + tail == head + y + tail {
        assert((head + x + tail).len() == head.len() + x.len() + tail.len());
        assert((head + y + tail).len() == head.len() + y.len() + tail.len());
        assert(x =~= (head + x + tail).subrange(head.len() as int, (head.len() + x.len()) as int));
        assert(y =~= (head + y + tail).subrange(head.len() as int, (head.len() + y.len()) as int));
        text::decimal_tells_numbers_apart(a as nat, b as nat);
    }
}

/// A user without a runtime directory has a socket among the temporary files,
/// named after the user; without a number for the user, the socket's plain name
/// has to do.
pub proof fn sockets_are_named_after_users(id: u32)
    ensures
        fallback_path(Some(id)) == "/tmp/mii-sound-"@ + text::decimal(id as nat) + ".sock"@,
        fallback_path(None) == "mii-sound.sock"@,
        socket_name() == "mii-sound.sock"@,
{
}

/// What the local socket goes by is what the name holds.
pub proof fn names_hold_their_fields(path: PathBuf, name: &'static str)
    ensures
        SocketName::Path(path)@ == SocketNameView::Path(path),
        SocketName::Namespaced(name)@ == SocketNameView::Namespaced(name@),
{
}

/// Client and server meet at the path that the user gave. Without one they
/// meet in the user's runtime directory if there is one, and only else at a
/// path of the user's own.
pub proof fn peers_meet(
    custom: Option<PathBuf>,
    namespaces: bool,
    fallback: PathBuf,
    name: SocketName,
    runtime_dir: Option<PathBuf>,
    uid: Option<u32>,
    path: SocketPath,
)
    requires
        call_ensures(resolve_name, (custom, namespaces, fallback), name),
        call_ensures(default_socket_path, (runtime_dir, uid), path),
    ensures
        custom is Some ==> name == SocketName::Path(custom->0),
        custom is None && !namespaces ==> name == SocketName::Path(fallback),
        custom is None && namespaces ==> (name matches SocketName::Namespaced(n) && n@
            == "mii-sound.sock"@),
        path is InRuntimeDir <==> runtime_dir is Some,
        path matches SocketPath::InRuntimeDir(dir, file) ==> runtime_dir == Some(dir) && file@
            == "mii-sound.sock"@,
        path matches SocketPath::At(p) ==> match uid {
            Some(id) => p@ == "/tmp/mii-sound-"@ + text::decimal(id as nat) + ".sock"@,
            None => p@ == "mii-sound.sock"@,
        },
{
}

/// The token that is sent is the one in the environment, and there has to be
/// one.
pub proof fn tokens_come_from_the_environment(set: Option<String>, r: Result<String, &'static str>)
    requires
        call_ensures(token_from_env, (set,), r),
    ensures
        r is Ok <==> set is Some,
        r matches Ok(token) ==> token@ == set->0@,
        r matches Err(msg) ==> msg@ == "$TOKEN env var must be set for network mode"@,
{
}

} // verus!
