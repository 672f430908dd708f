//! The fixed table of recognized Node built-in module names and the rule
//! that maps a recognized name to its shim location.

use vstd::prelude::*;
use vstd::string::StrSliceExecFns;
use vstd::string::StringExecFns;
use crate::config::CompatConfig;

verus! {

/// The fixed set of recognized built-in module names. Membership is
/// exact-string and case-sensitive: no aliasing, no fuzzy matching.
pub open spec fn is_builtin_name(name: Seq<char>) -> bool {
    ||| name == "assert"@
    ||| name == "assert/strict"@
    ||| name == "async_hooks"@
    ||| name == "buffer"@
    ||| name == "child_process"@
    ||| name == "cluster"@
    ||| name == "console"@
    ||| name == "constants"@
    ||| name == "crypto"@
    ||| name == "dgram"@
    ||| name == "dns"@
    ||| name == "domain"@
    ||| name == "events"@
    ||| name == "fs"@
    ||| name == "fs/promises"@
    ||| name == "http"@
    ||| name == "https"@
    ||| name == "module"@
    ||| name == "net"@
    ||| name == "os"@
    ||| name == "path"@
    ||| name == "path/posix"@
    ||| name == "path/win32"@
    ||| name == "perf_hooks"@
    ||| name == "process"@
    ||| name == "querystring"@
    ||| name == "readline"@
    ||| name == "stream"@
    ||| name == "stream/promises"@
    ||| name == "stream/web"@
    ||| name == "string_decoder"@
    ||| name == "sys"@
    ||| name == "timers"@
    ||| name == "timers/promises"@
    ||| name == "tls"@
    ||| name == "tty"@
    ||| name == "url"@
    ||| name == "util"@
    ||| name == "util/types"@
    ||| name == "v8"@
    ||| name == "vm"@
    ||| name == "zlib"@
}

/// Character-for-character equality of two strings.
fn str_equal(a: &str, b: &str) -> (r: bool)
    ensures
        r == (a@ == b@),
{
    let n = a.unicode_len();
    let m = b.unicode_len();
    if n != m {
        return false;
    }
    let mut i: usize = 0;
    while i < n
        invariant
            n == a@.len(),
            n == b@.len(),
            i <= n,
            forall|j: int| 0 <= j < i ==> a@[j] == b@[j],
        decreases n - i,
    {
        if a.get_char(i) != b.get_char(i) {
            return false;
        }
        i = i + 1;
    }
    proof {
        assert(a@ =~= b@);
    }
    true
}

/// Whether `name` is one of the recognized built-in module names.
pub fn is_builtin_module(name: &str) -> (r: bool)
    ensures
        r == is_builtin_name(name@),
{
    str_equal(name, "assert") || str_equal(name, "assert/strict") || str_equal(
        name,
        "async_hooks",
    ) || str_equal(name, "buffer") || str_equal(name, "child_process") || str_equal(name, "cluster")
        || str_equal(name, "console") || str_equal(name, "constants") || str_equal(name, "crypto")
        || str_equal(name, "dgram") || str_equal(name, "dns") || str_equal(name, "domain")
        || str_equal(name, "events") || str_equal(name, "fs") || str_equal(name, "fs/promises")
        || str_equal(name, "http") || str_equal(name, "https") || str_equal(name, "module")
        || str_equal(name, "net") || str_equal(name, "os") || str_equal(name, "path") || str_equal(
        name,
        "path/posix",
    ) || str_equal(name, "path/win32") || str_equal(name, "perf_hooks") || str_equal(
        name,
        "process",
    ) || str_equal(name, "querystring") || str_equal(name, "readline") || str_equal(name, "stream")
        || str_equal(name, "stream/promises") || str_equal(name, "stream/web") || str_equal(
        name,
        "string_decoder",
    ) || str_equal(name, "sys") || str_equal(name, "timers") || str_equal(name, "timers/promises")
        || str_equal(name, "tls") || str_equal(name, "tty") || str_equal(name, "url") || str_equal(
        name,
        "util",
    ) || str_equal(name, "util/types") || str_equal(name, "v8") || str_equal(name, "vm")
        || str_equal(name, "zlib")
}

/// The shim location for a built-in module name under a base location.
pub open spec fn builtin_url_spec(base: Seq<char>, name: Seq<char>) -> Seq<char> {
    base + "node/"@ + name + ".ts"@
}

/// For any name, the resolved location starts with the base location and
/// continues with exactly "node/", the name, and ".ts" — nothing more.
pub proof fn lemma_builtin_url_shape(base: Seq<char>, name: Seq<char>)
    ensures
        builtin_url_spec(base, name).subrange(0, base.len() as int) == base,
        builtin_url_spec(base, name).subrange(
            base.len() as int,
            builtin_url_spec(base, name).len() as int,
        ) == "node/"@ + name + ".ts"@,
{
    let u = builtin_url_spec(base, name);
    assert(u.subrange(0, base.len() as int) =~= base);
    assert(u.subrange(base.len() as int, u.len() as int) =~= "node/"@ + name + ".ts"@);
}

/// Maps a recognized built-in module name to its shim location under the
/// configured base. An unrecognized name is not an error: the absence
/// result tells the caller to resolve the specifier through normal means.
/// Pure string construction; no network or filesystem access.
pub fn try_resolve_builtin_module(config: &CompatConfig, specifier: &str) -> (r: Option<String>)
    ensures
        r is Some <==> is_builtin_name(specifier@),
        match r {
            Some(location) => location@ == builtin_url_spec(config@, specifier@),
            None => !is_builtin_name(specifier@),
        },
{
    if is_builtin_module(specifier) {
        let location = config.base_location().to_owned().concat("node/").concat(specifier).concat(
            ".ts",
        );
        Some(location)
    } else {
        None
    }
}

} // verus!
