//! What holds of the shell on every input: the guards in front of the
//! service, the life cycle of the session, and the shape of tokens.

use crate::command::{command_named, Command};
use crate::shell::{
    connect_step, decide, disconnect_step, not_connected_text, opened_step, step, ActionView,
    ShellView,
};
use crate::text::{is_space, is_word, lemma_word_len_bound, tokens, word_len};
use vstd::prelude::*;

verus! {

/// A command of the service that gets a fitting number of arguments while no
/// session is live shows `Not connected.` and nothing else: no request is
/// made and the shell is unchanged.
pub proof fn law_no_session_no_call<S>(st: ShellView<S>, cmd: Command, args: Seq<Seq<char>>)
    requires
        cmd.needs_session(),
        cmd.accepts(args.len()),
        st.session is None,
    ensures
        decide(st, cmd, args) == (st, ActionView::<S>::Say(seq![not_connected_text()])),
        !decide(st, cmd, args).1.is_remote(),
{
}

/// The same, said of an input line: where its first token names a command
/// of the service and the other tokens fit that command's window.
pub proof fn law_no_session_no_call_line<S>(st: ShellView<S>, line: Seq<char>, cmd: Command)
    requires
        tokens(line).len() > 0,
        command_named(tokens(line)[0]) == Some(cmd),
        cmd.needs_session(),
        cmd.accepts((tokens(line).len() - 1) as nat),
        st.session is None,
    ensures
        step(st, line) == (st, ActionView::<S>::Say(seq![not_connected_text()])),
{
    law_no_session_no_call(st, cmd, tokens(line).skip(1));
}

/// Whatever the line, a request to the service is only ever made on a live
/// session, and making one leaves the shell as it was.
pub proof fn law_call_needs_session<S>(st: ShellView<S>, line: Seq<char>)
    ensures
        step(st, line).1.is_remote() ==> st.session is Some && step(st, line).0 == st,
{
}

/// A command that gets a number of arguments outside its window shows its
/// arity error and nothing else: no request is made, no session is opened or
/// closed, and the shell is unchanged.
pub proof fn law_arity_guard<S>(st: ShellView<S>, cmd: Command, args: Seq<Seq<char>>)
    requires
        !cmd.accepts(args.len()),
    ensures
        decide(st, cmd, args) == (st, ActionView::<S>::Say(seq![cmd.arity_error()])),
        !decide(st, cmd, args).1.is_remote(),
{
}

/// The window of every command is closed on both sides: one argument fewer
/// than the least and one more than the greatest are both refused, and both
/// ends are taken.
pub proof fn law_arity_bounds(cmd: Command)
    ensures
        cmd.min_args() <= cmd.max_args(),
        cmd.accepts(cmd.min_args()),
        cmd.accepts(cmd.max_args()),
        !cmd.accepts(cmd.max_args() + 1),
        cmd.min_args() > 0 ==> !cmd.accepts((cmd.min_args() - 1) as nat),
{
}

/// Connecting twice: once the session to the first hosts is stored, a
/// connect to other hosts hands exactly that session over to be closed by
/// the action that opens the new one, and until the new one is stored the
/// shell holds none.
pub proof fn law_reconnect_closes_first<S>(
    st: ShellView<S>,
    first: Seq<char>,
    session: S,
    second: Seq<char>,
)
    ensures
        ({
            let connecting = connect_step(st, first).0;
            let connected = opened_step(connecting, Ok(session)).0;
            let (after, action) = decide(connected, Command::Connect, seq![second]);
            &&& connected.session == Some(session)
            &&& action matches ActionView::Open { stale, hosts, .. }
            &&& stale == Some(session)
            &&& hosts == second
            &&& action.closes(session)
            &&& after.session is None
        }),
{
}

/// Disconnecting without a session shows `Not connected.` and closes
/// nothing; with a session it hands that session over to be closed, and the
/// shell holds none from then on, whatever the close will report.
pub proof fn law_disconnect<S>(st: ShellView<S>)
    ensures
        st.session is None ==> disconnect_step(st) == (
            st,
            ActionView::<S>::Say(seq![not_connected_text()]),
        ),
        st.session matches Some(s) ==> disconnect_step(st).1 == ActionView::Close(s)
            && disconnect_step(st).0.session is None,
        decide(st, Command::Disconnect, Seq::empty()) == disconnect_step(st),
{
}

/// No line makes the shell forget a session silently: where the session
/// that was live is not live afterwards, the action has the caller close it.
pub proof fn law_session_never_leaks<S>(st: ShellView<S>, line: Seq<char>, session: S)
    requires
        st.session == Some(session),
    ensures
        step(st, line).0.session == Some(session) || (step(st, line).0.session is None && step(
            st,
            line,
        ).1.closes(session)),
{
}

/// No line stores a session: only the outcome of opening one does.
pub proof fn law_lines_open_nothing<S>(st: ShellView<S>, line: Seq<char>)
    ensures
        step(st, line).0.session is Some ==> step(st, line).0.session == st.session,
{
}

/// No line changes the hosts, the timeout or the access-control list.
pub proof fn law_settings_fixed<S>(st: ShellView<S>, line: Seq<char>)
    ensures
        step(st, line).0.hosts == st.hosts,
        step(st, line).0.session_timeout == st.session_timeout,
        step(st, line).0.default_acl == st.default_acl,
{
}

/// A failed connect leaves the shell without a session.
pub proof fn law_failed_connect<S>(st: ShellView<S>, code: i32)
    ensures
        opened_step(st, Err::<S, i32>(code)).0.session is None,
{
}

/// Every token is a word: non-empty and without a separator.
pub proof fn law_tokens_are_words(s: Seq<char>)
    ensures
        forall|i: int| 0 <= i < tokens(s).len() ==> is_word(#[trigger] tokens(s)[i]),
    decreases s.len(),
{
    if s.len() == 0 {
    } else if is_space(s[0]) {
        let rest = tokens(s.skip(1));
        law_tokens_are_words(s.skip(1));
        assert forall|i: int| 0 <= i < tokens(s).len() implies is_word(#[trigger] tokens(s)[i]) by {
            assert(is_word(rest[i]));
        }
    } else {
        lemma_word_len_bound(s);
        let w = word_len(s) as int;
        let rest = tokens(s.skip(w));
        law_tokens_are_words(s.skip(w));
        assert forall|i: int| 0 <= i < tokens(s).len() implies is_word(#[trigger] tokens(s)[i]) by {
            if i == 0 {
                assert(tokens(s)[0] == s.take(w));
                assert forall|j: int| 0 <= j < w implies !is_space(#[trigger] s.take(w)[j]) by {
                    assert(s.take(w)[j] == s[j]);
                }
            } else {
                assert(tokens(s)[i] == rest[i - 1]);
                assert(is_word(rest[i - 1]));
            }
        }
    }
}

/// A line of separators alone has no token, and a line with any other
/// character has one.
pub proof fn law_blank_line(s: Seq<char>)
    ensures
        tokens(s).len() == 0 <==> forall|i: int| 0 <= i < s.len() ==> is_space(#[trigger] s[i]),
    decreases s.len(),
{
    if s.len() == 0 {
    } else if is_space(s[0]) {
        let t = s.skip(1);
        law_blank_line(t);
        if tokens(s).len() == 0 {
            assert forall|i: int| 0 <= i < s.len() implies is_space(#[trigger] s[i]) by {
                if i > 0 {
                    assert(s[i] == t[i - 1]);
                }
            }
        } else {
            let i = choose|i: int| 0 <= i < t.len() && !is_space(#[trigger] t[i]);
            assert(s[i + 1] == t[i]);
        }
    } else {
    }
}

} // verus!
