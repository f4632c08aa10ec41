//! Where the client finds the daemon's socket and where the widget keeps
//! its control socket, from the platform and the environment variables
//! that the caller read; and the port numbers that stand in for sockets
//! on Windows.

use vstd::prelude::*;
use crate::protocol::or_default;
use crate::text::{trimmed, trim, is_white_space, is_blank, first_non_ws_from, last_non_ws_before,
    lemma_trim_surrounded};

verus! {

/// The platforms the client is built for.
#[derive(Debug, Clone, Copy, PartialEq, Eq, Structural)]
pub enum Platform {
    Linux,
    MacOs,
    Windows,
}

/// The environment variables that decide the client's paths (each `None`
/// when unset or not valid Unicode).
#[derive(Debug, Clone, PartialEq)]
pub struct EnvVars {
    pub jarvis_data_dir: Option<String>,
    pub xdg_data_home: Option<String>,
    pub home: Option<String>,
    pub local_app_data: Option<String>,
    pub user_profile: Option<String>,
    pub jarvis_socket: Option<String>,
}

/// The platform's path separator.
pub open spec fn separator(p: Platform) -> Seq<char> {
    match p {
        Platform::Windows => "\\"@,
        _ => "/"@,
    }
}

/// The daemon's data directory: `JARVIS_DATA_DIR` when set, otherwise the
/// platform's per-user data directory with `jarvis` appended.
pub open spec fn data_dir(p: Platform, env: EnvVars) -> Seq<char> {
    match env.jarvis_data_dir.deep_view() {
        Some(d) => d,
        None => match p {
            Platform::Linux => or_default(
                env.xdg_data_home.deep_view(),
                or_default(env.home.deep_view(), "/tmp"@) + "/.local/share"@,
            ) + "/jarvis"@,
            Platform::MacOs => or_default(env.home.deep_view(), "/tmp"@)
                + "/Library/Application Support/jarvis"@,
            Platform::Windows => or_default(
                env.local_app_data.deep_view(),
                or_default(env.user_profile.deep_view(), "C:\\Users\\Default"@)
                    + "\\AppData\\Local"@,
            ) + "\\jarvis"@,
        },
    }
}

/// `dir`, the separator and `name`.
pub open spec fn in_dir(p: Platform, dir: Seq<char>, name: Seq<char>) -> Seq<char> {
    dir + separator(p) + name
}

/// `JARVIS_DATA_DIR`, when set, is the data directory on every platform,
/// whatever else is set; otherwise the data directory is a directory named
/// `jarvis`, and the daemon socket, the control socket and the command file
/// all lie directly inside the data directory under distinct names.
pub proof fn law_everything_in_the_data_dir(p: Platform, env: EnvVars)
    ensures
        env.jarvis_data_dir.deep_view() matches Some(d) ==> data_dir(p, env) == d,
        env.jarvis_data_dir is None ==> ({
            let d = data_dir(p, env);
            &&& d.len() >= 7
            &&& d.subrange(d.len() - 7, d.len() as int) == separator(p) + "jarvis"@
        }),
        in_dir(p, data_dir(p, env), "jarvis.sock"@).subrange(0, data_dir(p, env).len() + 1int)
            == data_dir(p, env) + separator(p),
        in_dir(p, data_dir(p, env), "jarvis.sock"@) != in_dir(
            p,
            data_dir(p, env),
            "jarvis-widget.sock"@,
        ),
        in_dir(p, data_dir(p, env), "jarvis-widget.sock"@) != in_dir(
            p,
            data_dir(p, env),
            "jarvis-widget-cmd"@,
        ),
        in_dir(p, data_dir(p, env), "jarvis.sock"@) != in_dir(
            p,
            data_dir(p, env),
            "jarvis-widget-cmd"@,
        ),
{
    reveal_strlit("jarvis.sock");
    reveal_strlit("jarvis-widget.sock");
    reveal_strlit("jarvis-widget-cmd");
    reveal_strlit("/jarvis");
    reveal_strlit("\\jarvis");
    reveal_strlit("jarvis");
    reveal_strlit("/");
    reveal_strlit("\\");
    let d = data_dir(p, env);
    let sep = separator(p);
    assert(sep.len() == 1);
    assert(in_dir(p, d, "jarvis.sock"@).subrange(0, d.len() + 1int) =~= d + sep);
    assert("jarvis.sock"@.len() == 11);
    assert("jarvis-widget.sock"@.len() == 18);
    assert("jarvis-widget-cmd"@.len() == 17);
    assert(in_dir(p, d, "jarvis.sock"@).len() != in_dir(p, d, "jarvis-widget.sock"@).len());
    assert(in_dir(p, d, "jarvis-widget.sock"@).len() != in_dir(p, d, "jarvis-widget-cmd"@).len());
    assert(in_dir(p, d, "jarvis.sock"@).len() != in_dir(p, d, "jarvis-widget-cmd"@).len());
    if env.jarvis_data_dir is None {
        let tail = sep + "jarvis"@;
        match p {
            Platform::Linux => {
                let base = or_default(
                    env.xdg_data_home.deep_view(),
                    or_default(env.home.deep_view(), "/tmp"@) + "/.local/share"@,
                );
                assert("/jarvis"@ =~= tail);
                assert((base + "/jarvis"@).subrange(base.len() as int, base.len() + 7int) =~= tail);
            },
            Platform::MacOs => {
                let base = or_default(env.home.deep_view(), "/tmp"@);
                let lit = "/Library/Application Support/jarvis"@;
                reveal_strlit("/Library/Application Support/jarvis");
                assert(lit.len() == 35);
                assert(lit.subrange(28, 35) =~= tail);
                assert((base + lit).subrange(base.len() + 28int, base.len() + 35int) =~= tail);
            },
            Platform::Windows => {
                let base = or_default(
                    env.local_app_data.deep_view(),
                    or_default(env.user_profile.deep_view(), "C:\\Users\\Default"@)
                        + "\\AppData\\Local"@,
                );
                assert("\\jarvis"@ =~= tail);
                assert((base + "\\jarvis"@).subrange(base.len() as int, base.len() + 7int) =~= tail);
            },
        }
    }
}

fn text_or(o: &Option<String>, default: &str) -> (r: String)
    ensures
        r@ == or_default(o.deep_view(), default@),
{
    match o {
        Some(s) => s.clone(),
        None => default.to_string(),
    }
}

/// The daemon's data directory, as the daemon itself resolves it, so that
/// the sockets land where the daemon looks.
pub fn jarvis_data_dir(p: Platform, env: &EnvVars) -> (r: String)
    ensures
        r@ == data_dir(p, *env),
{
    if let Some(d) = &env.jarvis_data_dir {
        return d.clone();
    }
    match p {
        Platform::Linux => {
            let mut base = match &env.xdg_data_home {
                Some(x) => x.clone(),
                None => {
                    let mut h = text_or(&env.home, "/tmp");
                    h.append("/.local/share");
                    h
                },
            };
            base.append("/jarvis");
            base
        },
        Platform::MacOs => {
            let mut h = text_or(&env.home, "/tmp");
            h.append("/Library/Application Support/jarvis");
            h
        },
        Platform::Windows => {
            let mut base = match &env.local_app_data {
                Some(x) => x.clone(),
                None => {
                    let mut h = text_or(&env.user_profile, "C:\\Users\\Default");
                    h.append("\\AppData\\Local");
                    h
                },
            };
            base.append("\\jarvis");
            base
        },
    }
}

fn join(p: Platform, dir: String, name: &str) -> (r: String)
    ensures
        r@ == in_dir(p, dir@, name@),
{
    let mut r = dir;
    match p {
        Platform::Windows => r.append("\\"),
        _ => r.append("/"),
    }
    r.append(name);
    r
}

/// The daemon socket inside the data directory.
pub fn default_socket_path(p: Platform, env: &EnvVars) -> (r: String)
    ensures
        r@ == in_dir(p, data_dir(p, *env), "jarvis.sock"@),
{
    join(p, jarvis_data_dir(p, env), "jarvis.sock")
}

/// The daemon socket: `JARVIS_SOCKET` when set, otherwise the default one.
pub fn socket_path(p: Platform, env: &EnvVars) -> (r: String)
    ensures
        r@ == or_default(
            env.jarvis_socket.deep_view(),
            in_dir(p, data_dir(p, *env), "jarvis.sock"@),
        ),
{
    match &env.jarvis_socket {
        Some(s) => s.clone(),
        None => default_socket_path(p, env),
    }
}

/// The widget's control socket inside the data directory.
pub fn control_socket_path(p: Platform, env: &EnvVars) -> (r: String)
    ensures
        r@ == in_dir(p, data_dir(p, *env), "jarvis-widget.sock"@),
{
    join(p, jarvis_data_dir(p, env), "jarvis-widget.sock")
}

/// The file through which the widget passes control commands to its UI.
pub fn control_cmd_path(p: Platform, env: &EnvVars) -> (r: String)
    ensures
        r@ == in_dir(p, data_dir(p, *env), "jarvis-widget-cmd"@),
{
    join(p, jarvis_data_dir(p, env), "jarvis-widget-cmd")
}

/// The file that holds the TCP port standing in for the socket `path`.
pub fn port_file_path(path: &str) -> (r: String)
    ensures
        r@ == path@ + ".port"@,
{
    let mut r = path.to_string();
    r.append(".port");
    r
}

/// Whether `c` is an ASCII decimal digit.
pub open spec fn is_digit(c: char) -> bool {
    '0' <= c && c <= '9'
}

/// The number that the decimal digits `s` spell.
pub open spec fn digits_value(s: Seq<char>) -> nat
    decreases s.len(),
{
    if s.len() == 0 {
        0
    } else {
        digits_value(s.drop_last()) * 10 + (s.last() as nat - '0' as nat) as nat
    }
}

/// `s` without one leading `+`, if it has one.
pub open spec fn unsigned_digits(s: Seq<char>) -> Seq<char> {
    if s.len() > 0 && s[0] == '+' {
        s.drop_first()
    } else {
        s
    }
}

/// What `u16::from_str` gives for `s`: an optional `+` followed by at
/// least one decimal digit, spelling a number that fits in 16 bits.
pub open spec fn parsed_u16(s: Seq<char>) -> Option<u16> {
    let d = unsigned_digits(s);
    if d.len() > 0 && (forall|i: int| 0 <= i < d.len() ==> is_digit(#[trigger] d[i]))
        && digits_value(d) <= 0xffff {
        Some(digits_value(d) as u16)
    } else {
        None
    }
}

proof fn lemma_digits_value_grows(s: Seq<char>, i: int, j: int)
    requires
        0 <= i <= j <= s.len(),
        forall|k: int| 0 <= k < s.len() ==> is_digit(#[trigger] s[k]),
    ensures
        digits_value(s.take(i)) <= digits_value(s.take(j)),
    decreases j - i,
{
    if i < j {
        lemma_digits_value_grows(s, i, j - 1);
        assert(s.take(j).drop_last() =~= s.take(j - 1));
    }
}

/// Parses `s` as `u16::from_str` does.
pub fn parse_u16(s: &str) -> (r: Option<u16>)
    ensures
        r == parsed_u16(s@),
{
    let n = s.unicode_len();
    let mut start: usize = 0;
    if n > 0 && s.get_char(0) == '+' {
        start = 1;
    }
    let ghost d = unsigned_digits(s@);
    assert(d =~= s@.skip(start as int));
    if start == n {
        return None;
    }
    let mut value: u32 = 0;
    let mut i: usize = start;
    while i < n
        invariant
            start <= i <= n,
            n == s@.len(),
            d =~= s@.skip(start as int),
            d == unsigned_digits(s@),
            forall|k: int| 0 <= k < i - start ==> is_digit(#[trigger] d[k]),
            value == digits_value(d.take(i - start)),
            value <= 0xffff,
        decreases n - i,
    {
        let c = s.get_char(i);
        if !('0' <= c && c <= '9') {
            assert(!is_digit(d[i - start]));
            return None;
        }
        let digit = (c as u32) - ('0' as u32);
        assert(d.take(i - start + 1).drop_last() =~= d.take(i - start));
        if value > 6553 || (value == 6553 && digit > 5) {
            proof {
                let ghost k = (i - start + 1) as int;
                assert(digits_value(d.take(k)) > 0xffff);
                if forall|m: int| 0 <= m < d.len() ==> is_digit(#[trigger] d[m]) {
                    lemma_digits_value_grows(d, k, d.len() as int);
                    assert(d.take(d.len() as int) =~= d);
                }
            }
            return None;
        }
        value = value * 10 + digit;
        i = i + 1;
    }
    assert(d.take(n - start) =~= d);
    Some(value as u16)
}

/// The port that a port file holding `text` names, if it names one: the
/// text without surrounding whitespace must parse as a `u16`.
pub fn parse_port(text: &str) -> (r: Option<u16>)
    ensures
        r == parsed_u16(trimmed(text@)),
{
    let t = trim(text);
    parse_u16(t.as_str())
}

/// The decimal digit character for `d < 10`.
pub open spec fn digit_char(d: nat) -> char {
    (d + 48) as char
}

/// `n` in decimal, without leading zeros (as `u16`'s `Display` writes it).
pub open spec fn decimal(n: nat) -> Seq<char>
    decreases n,
{
    if n < 10 {
        seq![digit_char(n)]
    } else {
        decimal(n / 10).push(digit_char(n % 10))
    }
}

fn digit_text(d: u16) -> (r: String)
    requires
        d < 10,
    ensures
        r@ == seq![digit_char(d as nat)],
{
    proof {
        reveal_strlit("0");
        reveal_strlit("1");
        reveal_strlit("2");
        reveal_strlit("3");
        reveal_strlit("4");
        reveal_strlit("5");
        reveal_strlit("6");
        reveal_strlit("7");
        reveal_strlit("8");
        reveal_strlit("9");
    }
    let r = match d {
        0 => "0".to_string(),
        1 => "1".to_string(),
        2 => "2".to_string(),
        3 => "3".to_string(),
        4 => "4".to_string(),
        5 => "5".to_string(),
        6 => "6".to_string(),
        7 => "7".to_string(),
        8 => "8".to_string(),
        _ => "9".to_string(),
    };
    assert(r@ =~= seq![digit_char(d as nat)]);
    r
}

/// `port` in decimal, as written to a port file.
pub fn port_text(port: u16) -> (r: String)
    ensures
        r@ == decimal(port as nat),
    decreases port,
{
    if port < 10 {
        digit_text(port)
    } else {
        let mut r = port_text(port / 10);
        let d = digit_text(port % 10);
        r.append(d.as_str());
        assert(r@ =~= decimal((port / 10) as nat).push(digit_char((port % 10) as nat)));
        r
    }
}

proof fn lemma_decimal(n: nat)
    ensures
        decimal(n).len() > 0,
        forall|i: int| 0 <= i < decimal(n).len() ==> is_digit(#[trigger] decimal(n)[i]),
        digits_value(decimal(n)) == n,
    decreases n,
{
    if n < 10 {
        let s = decimal(n);
        assert(s.drop_last() =~= Seq::<char>::empty());
        assert(digit_char(n) as nat == n + 48);
        assert(('0' as nat) == 48);
        assert(s.last() == digit_char(n));
        assert(digits_value(s) == digits_value(s.drop_last()) * 10 + (s.last() as nat - '0' as nat) as nat);
    } else {
        lemma_decimal(n / 10);
        let s = decimal(n);
        assert(s.drop_last() =~= decimal(n / 10));
        assert(digit_char(n % 10) as nat == n % 10 + 48);
        assert(forall|i: int| 0 <= i < s.len() - 1 ==> s[i] == decimal(n / 10)[i]);
        vstd::arithmetic::div_mod::lemma_fundamental_div_mod(n as int, 10);
        assert(('0' as nat) == 48);
        assert(digits_value(s) == digits_value(decimal(n / 10)) * 10 + (n % 10));
        assert(digits_value(decimal(n / 10)) == n / 10);
        assert(n == 10 * (n / 10) + n % 10);
    }
}

/// The port that the widget or the daemon writes to a port file is the
/// port that is read back from it.
pub proof fn law_port_file_round_trip(port: u16)
    ensures
        parsed_u16(trimmed(decimal(port as nat))) == Some(port),
{
    let s = decimal(port as nat);
    lemma_decimal(port as nat);
    assert(!is_white_space(s[0]));
    assert(first_non_ws_from(s, 0) == 0);
    assert(!is_white_space(s[s.len() - 1]));
    assert(last_non_ws_before(s, 0, s.len() as int) == s.len());
    assert(trimmed(s) =~= s);
    assert(s[0] != '+');
    assert(unsigned_digits(s) == s);
}

/// A port file may surround the number with whitespace (a trailing
/// newline, say): the port read back is still the one written.
pub proof fn law_port_file_ignores_surrounding_whitespace(
    port: u16,
    pre: Seq<char>,
    post: Seq<char>,
)
    requires
        is_blank(pre),
        is_blank(post),
    ensures
        parsed_u16(trimmed(pre + decimal(port as nat) + post)) == Some(port),
{
    let s = decimal(port as nat);
    lemma_decimal(port as nat);
    assert(!is_white_space(s[0]));
    assert(!is_white_space(s[s.len() - 1]));
    lemma_trim_surrounded(pre, s, post);
    assert(s[0] != '+');
    assert(unsigned_digits(s) == s);
}

} // verus!
