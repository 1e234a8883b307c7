//! Laws of the resolution engine: facts that hold of every input, stated over
//! the same spec functions the executable contracts use.

use vstd::prelude::*;

use crate::cmdline::{
    cmdline_fold, flag_kind, key_kind, resolve_cmdline, token_step, CmdlineFold, FlagKind,
    KeyKind, TokenStep,
};
use crate::coercers::lenient_bool_of;
use crate::config::{default_config, env_overlay, ConfigView};
use crate::loglevel::level_of;
use crate::numparse::u64_parse;
use crate::strutil::{has_eq, lemma_first_eq_is, name_of, tokens_of, value_of};

verus! {

/// The lenient boolean coercer is total — `get_bool_value`'s contract already
/// says it never fails — and on every well-formed two-field token `key=value`
/// its result is decided by the value alone: canonical `true` and `false` map
/// to themselves, an integer maps to whether it is non-zero, and anything
/// else maps to `false`.
pub proof fn lemma_lenient_bool_values(key: Seq<char>, v: Seq<char>)
    requires
        !key.contains('='),
        !v.contains('='),
    ensures
        ({
            let t = key + seq!['='] + v;
            &&& (v == "true"@ ==> lenient_bool_of(t) == true)
            &&& (v == "false"@ ==> lenient_bool_of(t) == false)
            &&& (u64_parse(v) matches Ok(x) ==> lenient_bool_of(t) == (x != 0))
            &&& (v != "true"@ && v != "false"@ && u64_parse(v) is Err ==> lenient_bool_of(t)
                == false)
        }),
{
    let t = key + seq!['='] + v;
    assert(t[key.len() as int] == '=');
    assert forall|j: int| 0 <= j < key.len() implies t[j] != '=' by {
        assert(t[j] == key[j]);
    }
    lemma_first_eq_is(t, key.len() as int);
    assert(value_of(t) =~= v);
    reveal_strlit("true");
    reveal_strlit("false");
    if v == "true"@ {
        assert(v[0] == 't');
        assert(u64_parse(v) is Err);
    }
    if v == "false"@ {
        assert(v[0] == 'f');
        assert(u64_parse(v) is Err);
    }
}

/// Whether a token is one the resolver recognizes: a recognized key with an
/// `=`, or a recognized bare flag without one.
pub open spec fn recognized_token(t: Seq<char>) -> bool {
    if has_eq(t) {
        key_kind(name_of(t)) != KeyKind::Unknown
    } else {
        flag_kind(t) != FlagKind::Unknown
    }
}

/// An unrecognized token never changes the record and never aborts the pass:
/// its step is exactly "carry on unchanged".
pub proof fn lemma_unrecognized_token_ignored(c: ConfigView, t: Seq<char>)
    requires
        !recognized_token(t),
    ensures
        token_step(c, t) == TokenStep::Cont(c),
{
}

/// The server address environment variable wins over whatever any earlier
/// source stored: after the environment override step with the variable set
/// to `addr`, the record's address is `addr`, whatever the record held.
pub proof fn lemma_env_server_addr_wins(
    c: ConfigView,
    addr: Seq<char>,
    log_level: Option<Seq<char>>,
    tracing: Option<Seq<char>>,
)
    ensures
        env_overlay(c, Some(addr), log_level, tracing).server_addr == addr,
{
}

/// A set log level environment variable whose value is a recognized name wins
/// the same way; one outside the vocabulary leaves the level untouched.
pub proof fn lemma_env_log_level(
    c: ConfigView,
    server_addr: Option<Seq<char>>,
    level: Seq<char>,
    tracing: Option<Seq<char>>,
)
    ensures
        level_of(level) matches Ok(l) ==> env_overlay(
            c,
            server_addr,
            Some(level),
            tracing,
        ).log_level == l,
        level_of(level) is Err ==> env_overlay(c, server_addr, Some(level), tracing).log_level
            == env_overlay(c, server_addr, None, tracing).log_level,
{
}

/// The guarded fields: the two timeouts stay positive, the pipe size stays
/// non-negative, and the three vsock ports stay non-negative (zero only when
/// never accepted, since the guard admits only positive values).
pub open spec fn guarded_fields_ok(c: ConfigView) -> bool {
    &&& c.hotplug_timeout >= 1
    &&& c.cdh_api_timeout >= 1
    &&& c.container_pipe_size >= 0
    &&& c.debug_console_vport >= 0
    &&& c.log_vport >= 0
    &&& c.passfd_listener_port >= 0
}

/// One token keeps the guarded fields intact: a rejected guard leaves the old
/// value, an accepted one stores only a value the guard admits.
pub proof fn lemma_token_step_keeps_guards(c: ConfigView, t: Seq<char>)
    requires
        guarded_fields_ok(c),
    ensures
        token_step(c, t) matches TokenStep::Cont(c2) ==> guarded_fields_ok(c2),
{
}

/// The whole token pass keeps the guarded fields intact.
pub proof fn lemma_cmdline_fold_keeps_guards(c: ConfigView, toks: Seq<Seq<char>>)
    requires
        guarded_fields_ok(c),
    ensures
        cmdline_fold(c, toks) matches CmdlineFold::Config(c2) ==> guarded_fields_ok(c2),
    decreases toks.len(),
{
    if toks.len() > 0 {
        lemma_token_step_keeps_guards(c, toks[0]);
        match token_step(c, toks[0]) {
            TokenStep::Cont(c2) => {
                lemma_cmdline_fold_keeps_guards(c2, toks.drop_first());
            },
            TokenStep::File(_) => {
            },
            TokenStep::Fail(_) => {
            },
        }
    }
}

/// Whatever command line is resolved from the defaults, a record that comes
/// out has positive timeouts, a non-negative pipe size and non-negative vsock
/// ports: a non-positive timeout or port from the command line is silently
/// dropped, never stored.
pub proof fn lemma_resolved_cmdline_guards(s: Seq<char>)
    ensures
        resolve_cmdline(s) matches CmdlineFold::Config(c) ==> guarded_fields_ok(c),
{
    lemma_cmdline_fold_keeps_guards(default_config(), tokens_of(s));
}

} // verus!
