//! The session credential extractor: locates four prefixed tokens in a
//! process argument string and derives two Basic-Auth-style credentials.

use vstd::prelude::*;
use crate::strutil::{contains_seq, matches_at, str_contains};
use sysinfo::{ProcessExt, SystemExt};

verus! {

/// Credential-extraction failure.
#[derive(Debug, Clone, PartialEq)]
pub enum ProcessInfoError {
    /// The game-client process could not be located.
    ProcessNotAvailable,
    /// No well-formed argument with the given prefix was present.
    ArgumentNotFound(String),
}

/// `ProcessInfoError` with the prefix abstracted to its characters.
pub enum ProcessInfoErrView {
    ProcessNotAvailable,
    ArgumentNotFound(Seq<char>),
}

impl View for ProcessInfoError {
    type V = ProcessInfoErrView;

    open spec fn view(&self) -> ProcessInfoErrView {
        match self {
            ProcessInfoError::ProcessNotAvailable => ProcessInfoErrView::ProcessNotAvailable,
            ProcessInfoError::ArgumentNotFound(s) => ProcessInfoErrView::ArgumentNotFound(s@),
        }
    }
}

/// Connection parameters recovered from the client process, immutable for
/// one session. The tokens are already Basic-Auth encoded.
#[derive(Debug, Clone, PartialEq)]
pub struct LCUClientInfo {
    pub port: u16,
    pub token: String,
    pub remoting_port: u16,
    pub remoting_token: String,
}

/// `LCUClientInfo` with the tokens abstracted to their characters.
pub struct LCUClientInfoV {
    pub port: u16,
    pub token: Seq<char>,
    pub remoting_port: u16,
    pub remoting_token: Seq<char>,
}

impl View for LCUClientInfo {
    type V = LCUClientInfoV;

    open spec fn view(&self) -> LCUClientInfoV {
        LCUClientInfoV {
            port: self.port,
            token: self.token@,
            remoting_port: self.remoting_port,
            remoting_token: self.remoting_token@,
        }
    }
}

/// What the standard base64 engine (with padding) produces for the given
/// characters. The encoding is a function of the input alone.
pub uninterp spec fn base64_std(s: Seq<char>) -> Seq<char>;

/// Relies on base64's `general_purpose::STANDARD` engine: deterministic
/// standard-alphabet encoding of the input bytes, empty in, empty out.
#[verifier::external_body]
fn b64_encode(s: &str) -> (r: String)
    ensures
        r@ == base64_std(s@),
        s@.len() == 0 ==> r@.len() == 0,
{
    base64::engine::Engine::encode(&base64::engine::general_purpose::STANDARD, s)
}

/// Relies on sysinfo (`System::new_all`, `System::refresh_processes`,
/// `System::processes`, `Process::name`, `Process::cmd`): the space-joined
/// argument list of the running game-client process, if there is one. The
/// result depends on the machine's process table, so nothing is promised
/// of it.
#[verifier::external_body]
pub fn get_league_process_args() -> (r: Option<String>)
{
    let mut sys = sysinfo::System::new_all();
    sys.refresh_processes();
    let process = sys.processes().iter().find(|p| p.1.name().contains("LeagueClientUx"));
    process.map(|p| p.1.cmd().join(" "))
}

/// Index of the first space, or the length when there is none.
pub open spec fn first_space_idx(s: Seq<char>) -> nat
    decreases s.len(),
{
    if s.len() <= 0 {
        0
    } else if s[0] == ' ' {
        0
    } else {
        1 + first_space_idx(s.skip(1))
    }
}

/// The argument string split on single spaces; consecutive spaces yield
/// empty tokens, as the upstream join produced none of its own.
pub open spec fn split_spaces(s: Seq<char>) -> Seq<Seq<char>>
    decreases s.len(),
{
    let i = first_space_idx(s);
    if i >= s.len() {
        seq![s]
    } else {
        seq![s.take(i as int)] + split_spaces(s.skip(i as int + 1))
    }
}

/// The token left after every occurrence of `pat` is struck out, scanning
/// left to right without overlap.
pub open spec fn remove_all(s: Seq<char>, pat: Seq<char>) -> Seq<char>
    decreases s.len(),
{
    if pat.len() <= 0 {
        s
    } else if s.len() < pat.len() {
        s
    } else if s.take(pat.len() as int) == pat {
        remove_all(s.skip(pat.len() as int), pat)
    } else {
        seq![s[0]] + remove_all(s.skip(1), pat)
    }
}

/// The first token containing `arg`, if any.
pub open spec fn first_containing(ts: Seq<Seq<char>>, arg: Seq<char>) -> Option<Seq<char>>
    decreases ts.len(),
{
    if ts.len() <= 0 {
        None
    } else if contains_seq(ts[0], arg) {
        Some(ts[0])
    } else {
        first_containing(ts.skip(1), arg)
    }
}

/// How one argument is extracted: the first space-separated token that
/// contains the prefix, with every occurrence of the prefix struck out;
/// no such token is an `ArgumentNotFound` carrying the prefix.
pub open spec fn sp_get_arg(arg: Seq<char>, args: Seq<char>) -> Result<
    Seq<char>,
    ProcessInfoErrView,
> {
    match first_containing(split_spaces(args), arg) {
        Some(t) => Ok(remove_all(t, arg)),
        None => Err(ProcessInfoErrView::ArgumentNotFound(arg)),
    }
}

proof fn lemma_first_space_at(s: Seq<char>, k: int)
    requires
        0 <= k < s.len(),
        s[k] == ' ',
        forall|j: int| 0 <= j < k ==> s[j] != ' ',
    ensures
        first_space_idx(s) == k,
    decreases k,
{
    if k > 0 {
        lemma_first_space_at(s.skip(1), k - 1);
    }
}

proof fn lemma_no_space(s: Seq<char>)
    requires
        forall|j: int| 0 <= j < s.len() ==> s[j] != ' ',
    ensures
        first_space_idx(s) == s.len(),
    decreases s.len(),
{
    if s.len() > 0 {
        lemma_no_space(s.skip(1));
    }
}

/// The views of a token list.
pub open spec fn token_views(ts: Seq<String>) -> Seq<Seq<char>> {
    ts.map_values(|t: String| t@)
}

/// Split a string on single spaces.
fn split_tokens(s: &str) -> (r: Vec<String>)
    ensures
        token_views(r@) == split_spaces(s@),
{
    let len = s.unicode_len();
    let mut out: Vec<String> = Vec::new();
    proof {
        assert(s@.skip(0) =~= s@);
        assert(token_views(out@) =~= Seq::<Seq<char>>::empty());
        assert(Seq::<Seq<char>>::empty() + split_spaces(s@) =~= split_spaces(s@));
    }
    let mut start: usize = 0;
    let mut i: usize = 0;
    while i < len
        invariant
            0 <= start <= i <= len,
            len == s@.len(),
            forall|j: int| start <= j < i ==> s@[j] != ' ',
            split_spaces(s@) == token_views(out@) + split_spaces(s@.skip(start as int)),
        decreases len - i,
    {
        if s.get_char(i) == ' ' {
            let tok = s.substring_char(start, i);
            let ghost prev = out@;
            out.push(tok.to_owned());
            proof {
                let s2 = s@.skip(start as int);
                lemma_first_space_at(s2, i - start as int);
                assert(s2.take(i - start as int) =~= s@.subrange(start as int, i as int));
                assert(s2.skip(i - start as int + 1) =~= s@.skip(i as int + 1));
                assert(token_views(out@) =~= token_views(prev) + seq![s@.subrange(
                    start as int,
                    i as int,
                )]);
                assert((token_views(prev) + seq![s@.subrange(start as int, i as int)])
                    + split_spaces(s@.skip(i as int + 1)) =~= token_views(prev) + (seq![
                    s@.subrange(start as int, i as int),
                ] + split_spaces(s@.skip(i as int + 1))));
            }
            start = i + 1;
        }
        i += 1;
    }
    let tok = s.substring_char(start, len);
    let ghost prev = out@;
    out.push(tok.to_owned());
    proof {
        let s2 = s@.skip(start as int);
        lemma_no_space(s2);
        assert(s2.take(s2.len() as int) =~= s2);
        assert(split_spaces(s2) =~= seq![s@.subrange(start as int, len as int)]);
        assert(token_views(out@) =~= token_views(prev) + seq![s@.subrange(
            start as int,
            len as int,
        )]);
    }
    out
}

/// Strike every occurrence of `pat` out of `s`, scanning left to right.
fn remove_all_exec(s: &str, pat: &str) -> (r: String)
    ensures
        r@ == remove_all(s@, pat@),
{
    let slen = s.unicode_len();
    let plen = pat.unicode_len();
    let mut out = String::new();
    if plen == 0 || plen > slen {
        out.append(s);
        proof {
            assert(out@ =~= s@);
        }
        return out;
    }
    let mut i: usize = 0;
    proof {
        assert(s@.skip(0) =~= s@);
        assert(Seq::<char>::empty() + remove_all(s@, pat@) =~= remove_all(s@, pat@));
    }
    while i <= slen - plen
        invariant
            0 <= i <= slen,
            slen == s@.len(),
            plen == pat@.len(),
            0 < plen <= slen,
            out@ + remove_all(s@.skip(i as int), pat@) == remove_all(s@, pat@),
        decreases slen - i,
    {
        let s2g = Ghost(s@.skip(i as int));
        if matches_at(s, pat, i) {
            proof {
                assert(s2g@.take(plen as int) =~= s@.subrange(i as int, i + plen));
                assert(s2g@.skip(plen as int) =~= s@.skip(i + plen));
            }
            i += plen;
        } else {
            let ghost prev = out@;
            let c = s.substring_char(i, i + 1);
            out.append(c);
            proof {
                assert(s2g@.take(plen as int) =~= s@.subrange(i as int, i + plen));
                assert(s2g@.skip(1) =~= s@.skip(i as int + 1));
                assert(s2g@[0] == s@[i as int]);
                assert(c@ =~= seq![s@[i as int]]);
                assert((prev + c@) + remove_all(s@.skip(i as int + 1), pat@) =~= prev + (seq![
                    s@[i as int],
                ] + remove_all(s@.skip(i as int + 1), pat@)));
            }
            i += 1;
        }
    }
    let rest = s.substring_char(i, slen);
    out.append(rest);
    proof {
        assert(s@.skip(i as int).len() < plen);
        assert(rest@ =~= s@.skip(i as int));
    }
    out
}

/// Extract one argument by prefix: the first space-separated token that
/// contains `arg`, with the prefix struck out.
pub fn get_arg(arg: &str, args: &str) -> (r: Result<String, ProcessInfoError>)
    ensures
        match r {
            Ok(s) => sp_get_arg(arg@, args@) == Ok::<Seq<char>, ProcessInfoErrView>(s@),
            Err(e) => sp_get_arg(arg@, args@) == Err::<Seq<char>, ProcessInfoErrView>(e@),
        },
{
    let toks = split_tokens(args);
    let ghost all = split_spaces(args@);
    proof {
        assert(all.skip(0) =~= all);
    }
    let mut i: usize = 0;
    while i < toks.len()
        invariant
            0 <= i <= toks@.len(),
            token_views(toks@) == all,
            all == split_spaces(args@),
            first_containing(all, arg@) == first_containing(all.skip(i as int), arg@),
        decreases toks@.len() - i,
    {
        proof {
            assert(all.skip(i as int)[0] == token_views(toks@)[i as int]);
            assert(token_views(toks@)[i as int] == toks@[i as int]@);
        }
        if str_contains(toks[i].as_str(), arg) {
            let r = remove_all_exec(toks[i].as_str(), arg);
            return Ok(r);
        }
        proof {
            assert(all.skip(i as int).skip(1) =~= all.skip(i as int + 1));
        }
        i += 1;
    }
    Err(ProcessInfoError::ArgumentNotFound(arg.to_owned()))
}

/// Is `c` a decimal digit?
pub open spec fn is_digit(c: char) -> bool {
    48 <= c as u32 <= 57
}

/// Does the whole token consist of decimal digits?
pub open spec fn is_digits(s: Seq<char>) -> bool {
    s.len() > 0 && forall|i: int| 0 <= i < s.len() ==> is_digit(s[i])
}

/// The number the digit token spells.
pub open spec fn digits_val(s: Seq<char>) -> int
    decreases s.len(),
{
    if s.len() <= 0 {
        0
    } else {
        digits_val(s.drop_last()) * 10 + (s.last() as u32 - 48)
    }
}

/// How a port token parses: all digits and at most 65535.
pub open spec fn sp_parse_u16(s: Seq<char>) -> Option<u16> {
    if is_digits(s) && digits_val(s) <= 65535 {
        Some(digits_val(s) as u16)
    } else {
        None
    }
}

proof fn lemma_digits_val_nonneg(s: Seq<char>)
    requires
        forall|i: int| 0 <= i < s.len() ==> is_digit(s[i]),
    ensures
        digits_val(s) >= 0,
    decreases s.len(),
{
    if s.len() > 0 {
        lemma_digits_val_nonneg(s.drop_last());
    }
}

/// Parse a decimal port number.
pub fn parse_u16(s: &str) -> (r: Option<u16>)
    ensures
        r == sp_parse_u16(s@),
{
    let len = s.unicode_len();
    if len == 0 {
        return None;
    }
    let mut acc: u32 = 0;
    let mut over: bool = false;
    let mut i: usize = 0;
    while i < len
        invariant
            0 < len,
            len == s@.len(),
            0 <= i <= len,
            forall|j: int| 0 <= j < i ==> is_digit(s@[j]),
            !over ==> acc == digits_val(s@.take(i as int)) && acc <= 65535,
            over ==> digits_val(s@.take(i as int)) > 65535,
        decreases len - i,
    {
        let c = s.get_char(i);
        let cu = c as u32;
        if !(48 <= cu && cu <= 57) {
            return None;
        }
        let d: u32 = cu - 48;
        proof {
            assert(s@.take(i as int + 1).drop_last() =~= s@.take(i as int));
            assert(s@.take(i as int + 1).last() == s@[i as int]);
            lemma_digits_val_nonneg(s@.take(i as int));
        }
        if !over {
            let nacc = acc * 10 + d;
            if nacc > 65535 {
                over = true;
            } else {
                acc = nacc;
            }
        }
        i += 1;
    }
    proof {
        assert(s@.take(len as int) =~= s@);
    }
    if over {
        None
    } else {
        proof {
            lemma_digits_val_nonneg(s@);
        }
        Some(acc as u16)
    }
}

/// How the four connection parameters derive from an argument string:
/// each is located by its fixed prefix; the two ports must be decimal
/// numbers; the two secrets are prefixed with the fixed realm literal and
/// base64-encoded. A port token that is not a number counts as not found.
pub open spec fn sp_auth_info(args: Seq<char>) -> Result<LCUClientInfoV, ProcessInfoErrView> {
    let p = sp_get_arg("--riotclient-app-port="@, args);
    let t = sp_get_arg("--riotclient-auth-token="@, args);
    let rp = sp_get_arg("--app-port="@, args);
    let rt = sp_get_arg("--remoting-auth-token="@, args);
    if p is Err {
        Err(p->Err_0)
    } else if t is Err {
        Err(t->Err_0)
    } else if rp is Err {
        Err(rp->Err_0)
    } else if rt is Err {
        Err(rt->Err_0)
    } else if sp_parse_u16(p->Ok_0) is None {
        Err(ProcessInfoErrView::ArgumentNotFound("--riotclient-app-port="@))
    } else if sp_parse_u16(rp->Ok_0) is None {
        Err(ProcessInfoErrView::ArgumentNotFound("--app-port="@))
    } else {
        Ok(
            LCUClientInfoV {
                port: sp_parse_u16(p->Ok_0)->Some_0,
                token: base64_std("riot:"@ + t->Ok_0),
                remoting_port: sp_parse_u16(rp->Ok_0)->Some_0,
                remoting_token: base64_std("riot:"@ + rt->Ok_0),
            },
        )
    }
}

/// Derive the connection parameters from a process argument string.
pub fn get_auth_info(args: String) -> (r: Result<LCUClientInfo, ProcessInfoError>)
    ensures
        match r {
            Ok(info) => sp_auth_info(args@) == Ok::<LCUClientInfoV, ProcessInfoErrView>(info@),
            Err(e) => sp_auth_info(args@) == Err::<LCUClientInfoV, ProcessInfoErrView>(e@),
        },
{
    let port_s = match get_arg("--riotclient-app-port=", args.as_str()) {
        Ok(s) => s,
        Err(e) => {
            return Err(e);
        },
    };
    let token_s = match get_arg("--riotclient-auth-token=", args.as_str()) {
        Ok(s) => s,
        Err(e) => {
            return Err(e);
        },
    };
    let rport_s = match get_arg("--app-port=", args.as_str()) {
        Ok(s) => s,
        Err(e) => {
            return Err(e);
        },
    };
    let rtoken_s = match get_arg("--remoting-auth-token=", args.as_str()) {
        Ok(s) => s,
        Err(e) => {
            return Err(e);
        },
    };
    let port = match parse_u16(port_s.as_str()) {
        Some(p) => p,
        None => {
            return Err(ProcessInfoError::ArgumentNotFound("--riotclient-app-port=".to_owned()));
        },
    };
    let remoting_port = match parse_u16(rport_s.as_str()) {
        Some(p) => p,
        None => {
            return Err(ProcessInfoError::ArgumentNotFound("--app-port=".to_owned()));
        },
    };
    let realm1 = String::from_str("riot:");
    let token = b64_encode(realm1.concat(token_s.as_str()).as_str());
    let realm2 = String::from_str("riot:");
    let remoting_token = b64_encode(realm2.concat(rtoken_s.as_str()).as_str());
    Ok(LCUClientInfo { port, token, remoting_port, remoting_token })
}

/// Locate the client process and derive the connection parameters.
/// Whatever argument string the process table yielded, the result is
/// exactly what `sp_auth_info` says of it; with no process there is only
/// `ProcessNotAvailable`.
pub fn get_lcu_client_info() -> (r: Result<LCUClientInfo, ProcessInfoError>)
    ensures
        match r {
            Ok(info) => exists|args: Seq<char>|
                sp_auth_info(args) == Ok::<LCUClientInfoV, ProcessInfoErrView>(info@),
            Err(e) => e@ == ProcessInfoErrView::ProcessNotAvailable || exists|args: Seq<char>|
                sp_auth_info(args) == Err::<LCUClientInfoV, ProcessInfoErrView>(e@),
        },
{
    match get_league_process_args() {
        Some(args) => {
            let ghost a = args@;
            match get_auth_info(args) {
                Ok(info) => {
                    proof {
                        assert(sp_auth_info(a) == Ok::<LCUClientInfoV, ProcessInfoErrView>(
                            info@,
                        ));
                    }
                    Ok(info)
                },
                Err(e) => {
                    proof {
                        assert(sp_auth_info(a) == Err::<LCUClientInfoV, ProcessInfoErrView>(e@));
                    }
                    Err(e)
                },
            }
        },
        None => Err(ProcessInfoError::ProcessNotAvailable),
    }
}

} // verus!
