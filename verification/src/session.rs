//! The session orchestrator.  A start request runs in stages: the caller
//! probes the control plane for the session, takes the action the entry
//! decision table dictates, and, for a fresh creation, runs the creation
//! commands, asks the server where it put the first window, then runs the
//! per-window materialization commands in document order, attaching last if
//! that was asked.  Everything decided here is verified; the caller only
//! executes the commands, one at a time, stopping at the first failure.

use vstd::prelude::*;
use vstd::string::StringExecFns;

use crate::config::{spec_basename, Config, PaneConfig, WindowConfig, WindowLayout};
use crate::error::TmuxrsError;
use crate::text::{blank, dec_str, is_blank, usize_to_string};
use crate::tmux::{
    opt_str_view, spec_kill_session_argv, spec_new_session_argv, spec_new_window_argv,
    spec_rename_window_argv, spec_select_layout_argv, spec_send_keys_argv,
    spec_send_keys_to_pane_argv, spec_set_base_index_argv, spec_set_pane_base_index_argv,
    spec_split_argv, spec_split_target, TmuxCommand,
};

verus! {

/// The session orchestrator: given a session description and the observed
/// state of the control plane, it decides what to do and lays out the exact
/// command sequence that materializes the session.  An optional socket path
/// aims every command at an isolated server instead of the default one.
#[derive(Debug)]
pub struct SessionManager {
    pub socket_path: Option<String>,
}

/// What the entry decision table says to do for a start request.
#[derive(Debug, PartialEq, Eq, Structural)]
pub enum StartAction {
    /// The session is absent: create it afresh.
    CreateFresh,
    /// The session is present and append was asked: refused, unsupported.
    AppendUnsupported,
    /// The session is present and attach was asked: attach interactively.
    AttachExisting,
    /// The session is present and nothing was asked of it: report only.
    AlreadyExists,
}

/// The entry decision table: an absent session is created; on a present one,
/// append is refused, attach attaches, and otherwise the existence is only
/// reported.  Append takes precedence over attach.
pub open spec fn spec_entry_action(exists: bool, attach: bool, append: bool) -> StartAction {
    if !exists {
        StartAction::CreateFresh
    } else if append {
        StartAction::AppendUnsupported
    } else if attach {
        StartAction::AttachExisting
    } else {
        StartAction::AlreadyExists
    }
}

/// A path that expansion provably leaves alone: no environment reference
/// anywhere and no tilde in front.
pub open spec fn no_expansion_needed(s: Seq<char>) -> bool {
    (forall|i: int| 0 <= i < s.len() ==> s[i] != '$') && (s.len() == 0 || s[0] != '~')
}

/// Whether the string holds an environment reference anywhere.
pub open spec fn has_dollar(s: Seq<char>) -> bool {
    exists|i: int| 0 <= i < s.len() && s[i] == '$'
}

/// The shapes tilde expansion can yield: the input unchanged, or — only for
/// an input that is `~` alone or starts `~/` — some home directory followed
/// by the input after the tilde.
pub open spec fn tilde_shape(input: Seq<char>, r: Seq<char>) -> bool {
    ||| r == input
    ||| (input.len() > 0 && input[0] == '~' && (input.len() == 1 || input[1] == '/') && exists|
        h: Seq<char>,
    | r == h + input.skip(1))
}

/// Relies on shellexpand::full: expands a leading tilde and environment
/// references in the system context.  Failure arises only while looking up a
/// referenced variable, so an input with no `$` cannot fail and comes back
/// in a tilde shape; one with nothing to expand comes back unchanged — as
/// the crate's source shows.
#[verifier::external_body]
fn shell_expand_full(path: &str) -> (r: Result<String, String>)
    ensures
        match r {
            Ok(p) => (no_expansion_needed(path@) ==> p@ == path@) && (!has_dollar(path@)
                ==> tilde_shape(path@, p@)),
            Err(_) => has_dollar(path@),
        },
{
    match shellexpand::full(path) {
        Ok(c) => Ok(c.into_owned()),
        Err(e) => Err(e.to_string()),
    }
}

/// Relies on shellexpand::tilde: never fails, touches only an input that is
/// `~` alone or starts `~/`, and then puts a home directory where the tilde
/// stood, when one is known — as the crate's source shows.
#[verifier::external_body]
fn shell_expand_tilde(path: &str) -> (r: String)
    ensures
        tilde_shape(path@, r@),
{
    shellexpand::tilde(path).into_owned()
}

impl SessionManager {
    /// The socket path, as an optional character sequence.
    pub open spec fn socket_view(self) -> Option<Seq<char>> {
        match self.socket_path {
            Some(s) => Some(s@),
            None => None,
        }
    }

    /// Creates a manager aimed at the default server.
    pub fn new() -> (r: Self)
        ensures
            r.socket_view() is None,
    {
        SessionManager { socket_path: None }
    }

    /// Creates a manager aimed at the server on the given socket.
    pub fn with_socket(socket_path: &str) -> (r: Self)
        ensures
            r.socket_view() == Some(socket_path@),
    {
        SessionManager { socket_path: Some(socket_path.to_owned()) }
    }

    fn socket_opt(&self) -> (r: Option<&str>)
        ensures
            opt_str_view(r) == self.socket_view(),
    {
        match &self.socket_path {
            Some(s) => Some(s.as_str()),
            None => None,
        }
    }

    /// Resolves `~` and environment references in a working-directory path.
    /// When the combined expansion fails over an unset variable, falls back
    /// to tilde-only expansion with the unresolved text kept literally, so
    /// expansion never fails outright.
    pub fn expand_path(path: &str) -> (r: Result<String, TmuxrsError>)
        ensures
            r is Ok,
            no_expansion_needed(path@) ==> (r matches Ok(p) && p@ == path@),
            r matches Ok(p) && (tilde_shape(path@, p@) || has_dollar(path@)),
    {
        match shell_expand_full(path) {
            Ok(expanded) => Ok(expanded),
            Err(_) => Ok(shell_expand_tilde(path)),
        }
    }

    /// Reconciles a start request against the observed state of the control
    /// plane, by the entry decision table.
    pub fn start_session_with_options(&self, exists: bool, attach: bool, append: bool) -> (r:
        StartAction)
        ensures
            r == spec_entry_action(exists, attach, append),
    {
        if !exists {
            StartAction::CreateFresh
        } else if append {
            StartAction::AppendUnsupported
        } else if attach {
            StartAction::AttachExisting
        } else {
            StartAction::AlreadyExists
        }
    }

    /// The default start request: attach, and never append.
    pub fn start_session(&self, exists: bool) -> (r: StartAction)
        ensures
            r == spec_entry_action(exists, true, false),
    {
        self.start_session_with_options(exists, true, false)
    }

    /// Starts from a directory: the session takes the directory's base name,
    /// and the request is the default one.
    pub fn start_session_from_directory(&self, directory: &str, exists: bool) -> (r: Result<
        (String, StartAction),
        TmuxrsError,
    >)
        ensures
            match r {
                Ok(p) => spec_basename(directory@) matches Some(b) && p.0@ == b && p.1
                    == spec_entry_action(exists, true, false),
                Err(e) => spec_basename(directory@) is None && e is ConfigNotFound,
            },
    {
        match Config::detect_session_name(directory) {
            Ok(name) => Ok((name, self.start_session(exists))),
            Err(e) => Err(e),
        }
    }

    /// Decides a stop request: stopping an absent session is refused; a
    /// present one yields the kill command and the success message.
    pub fn stop_session(&self, name: &str, exists: bool) -> (r: Result<
        (TmuxCommand, String),
        TmuxrsError,
    >)
        ensures
            match r {
                Ok(p) => exists && p.0.argv() == spec_kill_session_argv(name@) && p.0.socket_view()
                    == self.socket_view() && p.1@ == "Stopped session '"@ + name@ + "'"@,
                Err(e) => !exists && (e matches TmuxrsError::TmuxError(m) && m@ == "Session '"@
                    + name@ + "' does not exist"@),
            },
    {
        if !exists {
            Err(
                TmuxrsError::TmuxError(
                    String::from_str("Session '").concat(name).concat("' does not exist"),
                ),
            )
        } else {
            let cmd = TmuxCommand::kill_session_with_socket(name, self.socket_opt());
            let msg = String::from_str("Stopped session '").concat(name).concat("'");
            Ok((cmd, msg))
        }
    }

    /// The opening of a fresh materialization: the root resolved through
    /// path expansion (the home reference when absent), then, in order,
    /// detached session creation at that root and the two option calls that
    /// force `base-index` and `pane-base-index` to 0.  The forced indexes
    /// make every later index-based pane target deterministic, whatever the
    /// ambient configuration sets.
    pub fn creation_commands(&self, session_name: &str, root: Option<&str>) -> (r: Result<
        (String, Vec<TmuxCommand>),
        TmuxrsError,
    >)
        ensures
            r is Ok,
            match r {
                Ok(p) => {
                    &&& p.1@.len() == 3
                    &&& p.1@[0].argv() == spec_new_session_argv(session_name@, p.0@)
                    &&& p.1@[1].argv() == spec_set_base_index_argv(session_name@)
                    &&& p.1@[2].argv() == spec_set_pane_base_index_argv(session_name@)
                    &&& all_socket(p.1@, self.socket_view())
                    &&& (match root {
                        Some(raw) => no_expansion_needed(raw@) ==> p.0@ == raw@,
                        None => true,
                    })
                },
                Err(_) => false,
            },
    {
        let raw: &str = match root {
            Some(r) => r,
            None => "~",
        };
        let root_path = match Self::expand_path(raw) {
            Ok(p) => p,
            Err(e) => {
                return Err(e);
            },
        };
        let mut v: Vec<TmuxCommand> = Vec::new();
        v.push(
            TmuxCommand::new_session_with_socket(
                session_name,
                root_path.as_str(),
                self.socket_opt(),
            ),
        );
        v.push(TmuxCommand::set_base_index_with_socket(session_name, self.socket_opt()));
        v.push(TmuxCommand::set_pane_base_index_with_socket(session_name, self.socket_opt()));
        Ok((root_path, v))
    }
}

/// The argument vectors of a command sequence.
pub open spec fn plan_argvs(cmds: Seq<TmuxCommand>) -> Seq<Seq<Seq<char>>> {
    cmds.map_values(|c: TmuxCommand| c.argv())
}

/// Whether every command of a sequence is aimed at the given socket.
pub open spec fn all_socket(cmds: Seq<TmuxCommand>, sock: Option<Seq<char>>) -> bool {
    forall|i: int| 0 <= i < cmds.len() ==> cmds[i].socket_view() == sock
}

/// The message when a present session is left untouched.
pub fn already_exists_message(session_name: &str) -> (r: String)
    ensures
        r@ == "Session '"@ + session_name@ + "' already exists"@,
{
    String::from_str("Session '").concat(session_name).concat("' already exists")
}

/// The refusal of an append request: reconciliation into a present session
/// is not supported.
pub fn append_unsupported_error() -> (e: TmuxrsError)
    ensures
        e matches TmuxrsError::TmuxError(m) && m@ == "Append functionality not yet implemented"@,
{
    TmuxrsError::TmuxError(String::from_str("Append functionality not yet implemented"))
}

/// The message after an interactive attach to a present session returned.
pub fn attached_message(session_name: &str) -> (r: String)
    ensures
        r@ == "Attached to existing session '"@ + session_name@ + "'"@,
{
    String::from_str("Attached to existing session '").concat(session_name).concat("'")
}

/// The error when attaching to a present session failed.
pub fn attach_failed_error(session_name: &str, err: &TmuxrsError) -> (e: TmuxrsError)
    ensures
        e matches TmuxrsError::TmuxError(m) && m@ == "Failed to attach to session '"@
            + session_name@ + "': "@ + err.spec_message(),
{
    let detail = err.message();
    TmuxrsError::TmuxError(
        String::from_str("Failed to attach to session '").concat(session_name).concat(
            "': ",
        ).concat(detail.as_str()),
    )
}

/// The message after a fresh session came up, attached or detached.
pub fn started_message(session_name: &str, attached: bool) -> (r: String)
    ensures
        r@ == (if attached {
            "Started and attached to session '"@ + session_name@ + "'"@
        } else {
            "Started detached session '"@ + session_name@ + "'"@
        }),
{
    if attached {
        String::from_str("Started and attached to session '").concat(session_name).concat("'")
    } else {
        String::from_str("Started detached session '").concat(session_name).concat("'")
    }
}

/// The generated name of an unnamed window, from its position.
pub open spec fn spec_simple_window_name(index: nat) -> Seq<char> {
    "window-"@ + dec_str(index)
}

fn simple_window_name(index: usize) -> (r: String)
    ensures
        r@ == spec_simple_window_name(index as nat),
{
    let digits = usize_to_string(index);
    String::from_str("window-").concat(digits.as_str())
}

/// The command that places one window: the first window of the session is
/// the one the server auto-created, renamed in place at its actual index;
/// every later window is created bare at the resolved root.
pub open spec fn spec_place_window_argv(
    index: nat,
    session: Seq<char>,
    root: Seq<char>,
    first_index: Seq<char>,
    window_name: Seq<char>,
) -> Seq<Seq<char>> {
    if index == 0 {
        spec_rename_window_argv(session, first_index, window_name)
    } else {
        spec_new_window_argv(session, window_name, None, Some(root))
    }
}

/// The commands of a single-command window: place it, then send its command
/// text — creation never carries the command, and a blank command sends
/// nothing.
pub open spec fn spec_simple_window_argvs(
    index: nat,
    session: Seq<char>,
    root: Seq<char>,
    first_index: Seq<char>,
    window_name: Seq<char>,
    command: Seq<char>,
) -> Seq<Seq<Seq<char>>> {
    let place = seq![spec_place_window_argv(index, session, root, first_index, window_name)];
    if blank(command) {
        place
    } else {
        place.push(spec_send_keys_argv(session, window_name, command))
    }
}

/// One keystroke delivery per command of a pane, to that pane's index.
pub open spec fn spec_pane_send_argvs(
    session: Seq<char>,
    window: Seq<char>,
    pane: nat,
    cmds: Seq<Seq<char>>,
) -> Seq<Seq<Seq<char>>> {
    cmds.map_values(|c: Seq<char>| spec_send_keys_to_pane_argv(session, window, pane, c))
}

/// The commands for the panes after the first of a layout window, given as
/// the pane list with its head dropped: for the pane at position k of that
/// remainder, one bare side-by-side split, then its commands sent to pane
/// index k + 1 — the index the split created under base-index 0.
pub open spec fn spec_extra_panes_argvs(
    session: Seq<char>,
    window: Seq<char>,
    root: Seq<char>,
    rest: Seq<PaneConfig>,
) -> Seq<Seq<Seq<char>>>
    decreases rest.len(),
{
    if rest.len() == 0 {
        Seq::empty()
    } else {
        spec_extra_panes_argvs(session, window, root, rest.drop_last()) + seq![
            spec_split_argv(true, session, window, Seq::empty(), Some(root)),
        ] + spec_pane_send_argvs(session, window, rest.len() as nat, rest.last().spec_commands())
    }
}

/// The commands of a layout window: place it, send the first pane's
/// commands to pane index 0, split-and-fill each further pane in order, and
/// apply the named layout last, after every pane exists.  A layout with no
/// panes is a configuration error.
pub open spec fn spec_layout_window_argvs(
    index: nat,
    session: Seq<char>,
    root: Seq<char>,
    first_index: Seq<char>,
    window_name: Seq<char>,
    layout: WindowLayout,
) -> Option<Seq<Seq<Seq<char>>>> {
    if layout.panes@.len() == 0 {
        None
    } else {
        let place = seq![spec_place_window_argv(index, session, root, first_index, window_name)];
        let first_sends = spec_pane_send_argvs(
            session,
            window_name,
            0,
            layout.panes@[0].spec_commands(),
        );
        let extra = spec_extra_panes_argvs(session, window_name, root, layout.panes@.skip(1));
        let apply = match layout.layout {
            Some(l) => seq![spec_select_layout_argv(session, window_name, l@)],
            None => Seq::<Seq<Seq<char>>>::empty(),
        };
        Some(place + first_sends + extra + apply)
    }
}

/// The commands of one window, whatever its shape.
pub open spec fn spec_window_argvs(
    w: WindowConfig,
    index: nat,
    session: Seq<char>,
    root: Seq<char>,
    first_index: Seq<char>,
) -> Option<Seq<Seq<Seq<char>>>> {
    match w {
        WindowConfig::Simple(command) => Some(
            spec_simple_window_argvs(
                index,
                session,
                root,
                first_index,
                spec_simple_window_name(index),
                command@,
            ),
        ),
        WindowConfig::Complex { name, command } => Some(
            spec_simple_window_argvs(index, session, root, first_index, name@, command@),
        ),
        WindowConfig::WithLayout { name, layout } => spec_layout_window_argvs(
            index,
            session,
            root,
            first_index,
            name@,
            layout,
        ),
    }
}

/// The commands of all windows, in document order; a single ill-formed
/// window makes the whole materialization a configuration error.
pub open spec fn spec_windows_argvs(
    ws: Seq<WindowConfig>,
    session: Seq<char>,
    root: Seq<char>,
    first_index: Seq<char>,
) -> Option<Seq<Seq<Seq<char>>>>
    decreases ws.len(),
{
    if ws.len() == 0 {
        Some(Seq::empty())
    } else {
        match (
            spec_windows_argvs(ws.drop_last(), session, root, first_index),
            spec_window_argvs(ws.last(), (ws.len() - 1) as nat, session, root, first_index),
        ) {
            (Some(a), Some(b)) => Some(a + b),
            _ => None,
        }
    }
}

proof fn lemma_windows_argvs_none(
    ws: Seq<WindowConfig>,
    i: int,
    session: Seq<char>,
    root: Seq<char>,
    first_index: Seq<char>,
)
    requires
        0 <= i < ws.len(),
        spec_window_argvs(ws[i], i as nat, session, root, first_index) is None,
    ensures
        spec_windows_argvs(ws, session, root, first_index) is None,
    decreases ws.len(),
{
    if i == ws.len() - 1 {
    } else {
        assert(ws.drop_last()[i] == ws[i]);
        lemma_windows_argvs_none(ws.drop_last(), i, session, root, first_index);
    }
}

impl SessionManager {
    fn place_window(
        &self,
        index: usize,
        session: &str,
        root: &str,
        first_index: &str,
        window_name: &str,
    ) -> (c: TmuxCommand)
        ensures
            c.argv() == spec_place_window_argv(
                index as nat,
                session@,
                root@,
                first_index@,
                window_name@,
            ),
            c.socket_view() == self.socket_view(),
    {
        if index == 0 {
            TmuxCommand::rename_window_with_socket(
                session,
                first_index,
                window_name,
                self.socket_opt(),
            )
        } else {
            TmuxCommand::new_window_with_socket(
                session,
                window_name,
                None,
                Some(root),
                self.socket_opt(),
            )
        }
    }

    #[verifier::loop_isolation(false)]
    fn push_pane_sends(
        &self,
        v: &mut Vec<TmuxCommand>,
        session: &str,
        window_name: &str,
        pane_index: usize,
        pane: &PaneConfig,
    )
        requires
            all_socket(old(v)@, self.socket_view()),
        ensures
            plan_argvs(final(v)@) == plan_argvs(old(v)@) + spec_pane_send_argvs(
                session@,
                window_name@,
                pane_index as nat,
                pane.spec_commands(),
            ),
            all_socket(final(v)@, self.socket_view()),
    {
        let cmds = pane.commands();
        let ghost base = v@;
        let mut k: usize = 0;
        while k < cmds.len()
            invariant
                k <= cmds.len(),
                v@.len() == base.len() + k,
                forall|j: int| 0 <= j < base.len() ==> v@[j] == base[j],
                forall|j: int|
                    0 <= j < k ==> v@[base.len() + j].argv() == spec_send_keys_to_pane_argv(
                        session@,
                        window_name@,
                        pane_index as nat,
                        pane.spec_commands()[j],
                    ),
                forall|j: int| 0 <= j < k ==> #[trigger] v@[base.len() + j].socket_view()
                    == self.socket_view(),
            decreases cmds.len() - k,
        {
            let c = TmuxCommand::send_keys_to_pane_with_socket(
                session,
                window_name,
                pane_index,
                cmds[k].as_str(),
                self.socket_opt(),
            );
            v.push(c);
            k = k + 1;
        }
        proof {
            assert(plan_argvs(v@) =~= plan_argvs(base) + spec_pane_send_argvs(
                session@,
                window_name@,
                pane_index as nat,
                pane.spec_commands(),
            ));
            assert forall|j: int| 0 <= j < v@.len() implies v@[j].socket_view()
                == self.socket_view() by {
                if j < base.len() {
                    assert(v@[j] == base[j]);
                } else {
                    let jj = j - base.len();
                    assert(v@[base.len() + jj].socket_view() == self.socket_view());
                }
            }
        }
    }

    #[verifier::loop_isolation(false)]
    fn layout_window_commands(
        &self,
        index: usize,
        session: &str,
        root: &str,
        first_index: &str,
        window_name: &str,
        layout: &WindowLayout,
    ) -> (r: Result<Vec<TmuxCommand>, TmuxrsError>)
        ensures
            match r {
                Ok(v) => spec_layout_window_argvs(
                    index as nat,
                    session@,
                    root@,
                    first_index@,
                    window_name@,
                    *layout,
                ) == Some(plan_argvs(v@)) && all_socket(v@, self.socket_view()),
                Err(e) => spec_layout_window_argvs(
                    index as nat,
                    session@,
                    root@,
                    first_index@,
                    window_name@,
                    *layout,
                ) is None && (e matches TmuxrsError::TmuxError(m) && m@
                    == "Window layout must have at least one pane"@),
            },
    {
        if layout.panes.len() == 0 {
            return Err(
                TmuxrsError::TmuxError(
                    String::from_str("Window layout must have at least one pane"),
                ),
            );
        }
        let ghost place = spec_place_window_argv(
            index as nat,
            session@,
            root@,
            first_index@,
            window_name@,
        );
        let mut v: Vec<TmuxCommand> = Vec::new();
        v.push(self.place_window(index, session, root, first_index, window_name));
        proof {
            assert(plan_argvs(v@) =~= seq![place]);
        }
        self.push_pane_sends(&mut v, session, window_name, 0, &layout.panes[0]);
        let ghost first_sends = spec_pane_send_argvs(
            session@,
            window_name@,
            0,
            layout.panes@[0].spec_commands(),
        );
        let mut p: usize = 1;
        while p < layout.panes.len()
            invariant
                1 <= p <= layout.panes.len(),
                plan_argvs(v@) == seq![place] + first_sends + spec_extra_panes_argvs(
                    session@,
                    window_name@,
                    root@,
                    layout.panes@.subrange(1, p as int),
                ),
                all_socket(v@, self.socket_view()),
            decreases layout.panes.len() - p,
        {
            let ghost before = plan_argvs(v@);
            let split = TmuxCommand::split_window_horizontal_with_socket(
                session,
                window_name,
                "",
                Some(root),
                self.socket_opt(),
            );
            proof {
                reveal_strlit("");
                assert(""@ =~= Seq::<char>::empty());
                assert(split.argv() == spec_split_argv(
                    true,
                    session@,
                    window_name@,
                    Seq::<char>::empty(),
                    Some(root@),
                ));
            }
            v.push(split);
            proof {
                assert(plan_argvs(v@) =~= before + seq![
                    spec_split_argv(
                        true,
                        session@,
                        window_name@,
                        Seq::<char>::empty(),
                        Some(root@),
                    ),
                ]);
            }
            self.push_pane_sends(&mut v, session, window_name, p, &layout.panes[p]);
            proof {
                let rest = layout.panes@.subrange(1, p as int + 1);
                assert(rest.drop_last() =~= layout.panes@.subrange(1, p as int));
                assert(rest.last() == layout.panes@[p as int]);
                assert(rest.len() == p as int);
                let splitv = spec_split_argv(
                    true,
                    session@,
                    window_name@,
                    Seq::<char>::empty(),
                    Some(root@),
                );
                let sends = spec_pane_send_argvs(
                    session@,
                    window_name@,
                    p as nat,
                    layout.panes@[p as int].spec_commands(),
                );
                assert(spec_extra_panes_argvs(session@, window_name@, root@, rest)
                    == spec_extra_panes_argvs(session@, window_name@, root@, rest.drop_last())
                    + seq![splitv] + spec_pane_send_argvs(
                    session@,
                    window_name@,
                    rest.len() as nat,
                    rest.last().spec_commands(),
                ));
                assert(plan_argvs(v@) =~= before + seq![splitv] + sends);
                assert(plan_argvs(v@) =~= seq![place] + first_sends + spec_extra_panes_argvs(
                    session@,
                    window_name@,
                    root@,
                    rest,
                ));
            }
            p = p + 1;
        }
        proof {
            assert(layout.panes@.subrange(1, layout.panes@.len() as int) =~= layout.panes@.skip(1));
        }
        match &layout.layout {
            Some(l) => {
                let apply = TmuxCommand::select_layout_with_socket(
                    session,
                    window_name,
                    l.as_str(),
                    self.socket_opt(),
                );
                v.push(apply);
                proof {
                    assert(plan_argvs(v@) =~= seq![place] + first_sends + spec_extra_panes_argvs(
                        session@,
                        window_name@,
                        root@,
                        layout.panes@.skip(1),
                    ) + seq![spec_select_layout_argv(session@, window_name@, l@)]);
                }
            },
            None => {
                proof {
                    assert(plan_argvs(v@) =~= seq![place] + first_sends + spec_extra_panes_argvs(
                        session@,
                        window_name@,
                        root@,
                        layout.panes@.skip(1),
                    ) + Seq::<Seq<Seq<char>>>::empty());
                }
            },
        }
        Ok(v)
    }

    fn simple_window_commands(
        &self,
        index: usize,
        session: &str,
        root: &str,
        first_index: &str,
        window_name: &str,
        command: &str,
    ) -> (v: Vec<TmuxCommand>)
        ensures
            plan_argvs(v@) == spec_simple_window_argvs(
                index as nat,
                session@,
                root@,
                first_index@,
                window_name@,
                command@,
            ),
            all_socket(v@, self.socket_view()),
    {
        let mut v: Vec<TmuxCommand> = Vec::new();
        v.push(self.place_window(index, session, root, first_index, window_name));
        if !is_blank(command) {
            v.push(
                TmuxCommand::send_keys_with_socket(session, window_name, command, self.socket_opt()),
            );
        }
        proof {
            assert(plan_argvs(v@) =~= spec_simple_window_argvs(
                index as nat,
                session@,
                root@,
                first_index@,
                window_name@,
                command@,
            ));
        }
        v
    }

    /// The materialization commands for one window, by its position in the
    /// document: an unnamed window is named after its position; a layout
    /// window with no panes is a configuration error.
    pub fn commands_for_window(
        &self,
        index: usize,
        w: &WindowConfig,
        session_name: &str,
        root_path: &str,
        first_window_index: &str,
    ) -> (r: Result<Vec<TmuxCommand>, TmuxrsError>)
        ensures
            match r {
                Ok(v) => spec_window_argvs(
                    *w,
                    index as nat,
                    session_name@,
                    root_path@,
                    first_window_index@,
                ) == Some(plan_argvs(v@)) && all_socket(v@, self.socket_view()),
                Err(e) => spec_window_argvs(
                    *w,
                    index as nat,
                    session_name@,
                    root_path@,
                    first_window_index@,
                ) is None && (e matches TmuxrsError::TmuxError(m) && m@
                    == "Window layout must have at least one pane"@),
            },
    {
        match w {
            WindowConfig::Simple(command) => {
                let window_name = simple_window_name(index);
                Ok(
                    self.simple_window_commands(
                        index,
                        session_name,
                        root_path,
                        first_window_index,
                        window_name.as_str(),
                        command.as_str(),
                    ),
                )
            },
            WindowConfig::Complex { name, command } => {
                Ok(
                    self.simple_window_commands(
                        index,
                        session_name,
                        root_path,
                        first_window_index,
                        name.as_str(),
                        command.as_str(),
                    ),
                )
            },
            WindowConfig::WithLayout { name, layout } => {
                self.layout_window_commands(
                    index,
                    session_name,
                    root_path,
                    first_window_index,
                    name.as_str(),
                    layout,
                )
            },
        }
    }

    /// The materialization commands for all windows, in document order.
    /// Failing fast, the caller runs these one at a time and stops at the
    /// first refused command; a zero-pane layout is found here, before
    /// anything ran.
    #[verifier::loop_isolation(false)]
    pub fn window_commands(
        &self,
        session_name: &str,
        root_path: &str,
        windows: &Vec<WindowConfig>,
        first_window_index: &str,
    ) -> (r: Result<Vec<TmuxCommand>, TmuxrsError>)
        ensures
            match r {
                Ok(v) => spec_windows_argvs(
                    windows@,
                    session_name@,
                    root_path@,
                    first_window_index@,
                ) == Some(plan_argvs(v@)) && all_socket(v@, self.socket_view()),
                Err(e) => spec_windows_argvs(
                    windows@,
                    session_name@,
                    root_path@,
                    first_window_index@,
                ) is None && (e matches TmuxrsError::TmuxError(m) && m@
                    == "Window layout must have at least one pane"@),
            },
    {
        let mut v: Vec<TmuxCommand> = Vec::new();
        proof {
            assert(plan_argvs(v@) =~= Seq::<Seq<Seq<char>>>::empty());
        }
        let mut i: usize = 0;
        while i < windows.len()
            invariant
                i <= windows.len(),
                spec_windows_argvs(
                    windows@.take(i as int),
                    session_name@,
                    root_path@,
                    first_window_index@,
                ) == Some(plan_argvs(v@)),
                all_socket(v@, self.socket_view()),
            decreases windows.len() - i,
        {
            let ghost prefix = plan_argvs(v@);
            match self.commands_for_window(
                i,
                &windows[i],
                session_name,
                root_path,
                first_window_index,
            ) {
                Ok(mut wcmds) => {
                    let ghost wplan = plan_argvs(wcmds@);
                    v.append(&mut wcmds);
                    proof {
                        let t = windows@.take(i as int + 1);
                        assert(t.drop_last() =~= windows@.take(i as int));
                        assert(t.last() == windows@[i as int]);
                        assert(plan_argvs(v@) =~= prefix + wplan);
                    }
                },
                Err(e) => {
                    proof {
                        lemma_windows_argvs_none(
                            windows@,
                            i as int,
                            session_name@,
                            root_path@,
                            first_window_index@,
                        );
                    }
                    return Err(e);
                },
            }
            i = i + 1;
        }
        proof {
            assert(windows@.take(windows@.len() as int) =~= windows@);
        }
        Ok(v)
    }
}

/// Whether an argument vector is a pane split.
pub open spec fn is_split_argv(a: Seq<Seq<char>>) -> bool {
    a.len() > 0 && a[0] == "split-window"@
}

/// How many commands of a plan are pane splits.
pub open spec fn split_count(plan: Seq<Seq<Seq<char>>>) -> int
    decreases plan.len(),
{
    if plan.len() == 0 {
        0
    } else {
        split_count(plan.drop_last()) + if is_split_argv(plan.last()) {
            1int
        } else {
            0int
        }
    }
}

proof fn lemma_split_count_add(a: Seq<Seq<Seq<char>>>, b: Seq<Seq<Seq<char>>>)
    ensures
        split_count(a + b) == split_count(a) + split_count(b),
    decreases b.len(),
{
    if b.len() == 0 {
        assert(a + b =~= a);
    } else {
        lemma_split_count_add(a, b.drop_last());
        assert((a + b).drop_last() =~= a + b.drop_last());
        assert((a + b).last() == b.last());
    }
}

proof fn lemma_sends_no_splits(session: Seq<char>, window: Seq<char>, pane: nat, cmds: Seq<Seq<char>>)
    ensures
        split_count(spec_pane_send_argvs(session, window, pane, cmds)) == 0,
    decreases cmds.len(),
{
    reveal_strlit("send-keys");
    reveal_strlit("split-window");
    let plan = spec_pane_send_argvs(session, window, pane, cmds);
    if cmds.len() == 0 {
        assert(plan.len() == 0);
    } else {
        lemma_sends_no_splits(session, window, pane, cmds.drop_last());
        assert(plan.drop_last() =~= spec_pane_send_argvs(session, window, pane, cmds.drop_last()));
        assert(plan.last() == spec_send_keys_to_pane_argv(session, window, pane, cmds.last()));
        assert(plan.last()[0] == "send-keys"@);
        assert("send-keys"@.len() == 9);
        assert("split-window"@.len() == 12);
        assert(!is_split_argv(plan.last()));
    }
}

proof fn lemma_extra_panes_split_count(
    session: Seq<char>,
    window: Seq<char>,
    root: Seq<char>,
    rest: Seq<PaneConfig>,
)
    ensures
        split_count(spec_extra_panes_argvs(session, window, root, rest)) == rest.len(),
    decreases rest.len(),
{
    if rest.len() == 0 {
    } else {
        lemma_extra_panes_split_count(session, window, root, rest.drop_last());
        let before = spec_extra_panes_argvs(session, window, root, rest.drop_last());
        let splitv = seq![spec_split_argv(true, session, window, Seq::<char>::empty(), Some(root))];
        let sends = spec_pane_send_argvs(
            session,
            window,
            rest.len() as nat,
            rest.last().spec_commands(),
        );
        lemma_split_count_add(before, splitv);
        lemma_split_count_add(before + splitv, sends);
        lemma_sends_no_splits(session, window, rest.len() as nat, rest.last().spec_commands());
        assert(split_count(splitv) == 1) by {
            assert(split_count(Seq::<Seq<Seq<char>>>::empty()) == 0);
            assert(splitv.drop_last() =~= Seq::<Seq<Seq<char>>>::empty());
            let sv = spec_split_argv(true, session, window, Seq::<char>::empty(), Some(root));
            assert(blank(Seq::<char>::empty()));
            assert(sv == seq!["split-window"@, "-h"@, "-t"@, spec_split_target(session, window)] + seq!["-c"@, root]);
            assert(sv[0] == "split-window"@);
            assert(is_split_argv(splitv.last()));
        }
    }
}

/// A layout window with `n` panes materializes exactly `n - 1` pane splits:
/// under the forced `base-index` and `pane-base-index` of 0, the window then
/// holds exactly `n` addressable pane indexes, 0 through `n - 1`, whatever
/// the ambient configuration sets.
pub proof fn lemma_layout_pane_count(
    index: nat,
    session: Seq<char>,
    root: Seq<char>,
    first_index: Seq<char>,
    window_name: Seq<char>,
    layout: WindowLayout,
)
    requires
        layout.panes@.len() > 0,
    ensures
        spec_layout_window_argvs(index, session, root, first_index, window_name, layout)
            matches Some(plan) && split_count(plan) == layout.panes@.len() - 1,
{
    reveal_strlit("split-window");
    reveal_strlit("rename-window");
    reveal_strlit("new-window");
    reveal_strlit("select-layout");
    let place = seq![spec_place_window_argv(index, session, root, first_index, window_name)];
    let first_sends = spec_pane_send_argvs(
        session,
        window_name,
        0,
        layout.panes@[0].spec_commands(),
    );
    let extra = spec_extra_panes_argvs(session, window_name, root, layout.panes@.skip(1));
    let apply = match layout.layout {
        Some(l) => seq![spec_select_layout_argv(session, window_name, l@)],
        None => Seq::<Seq<Seq<char>>>::empty(),
    };
    assert(split_count(place) == 0) by {
        assert(split_count(Seq::<Seq<Seq<char>>>::empty()) == 0);
        assert(place.drop_last() =~= Seq::<Seq<Seq<char>>>::empty());
        assert("split-window"@.len() == 12);
        assert("rename-window"@.len() == 13);
        assert("new-window"@.len() == 10);
        if index == 0 {
            assert(place.last()[0] == "rename-window"@);
        } else {
            assert(place.last()[0] == "new-window"@);
        }
        assert(!is_split_argv(place.last()));
    }
    lemma_sends_no_splits(session, window_name, 0, layout.panes@[0].spec_commands());
    lemma_extra_panes_split_count(session, window_name, root, layout.panes@.skip(1));
    assert(split_count(apply) == 0) by {
        match layout.layout {
            Some(l) => {
                assert(split_count(Seq::<Seq<Seq<char>>>::empty()) == 0);
                assert(apply.drop_last() =~= Seq::<Seq<Seq<char>>>::empty());
                assert(apply.last()[0] == "select-layout"@);
                assert("select-layout"@.len() == 13);
                assert("split-window"@.len() == 12);
                assert(!is_split_argv(apply.last()));
            },
            None => {},
        }
    }
    lemma_split_count_add(place, first_sends);
    lemma_split_count_add(place + first_sends, extra);
    lemma_split_count_add(place + first_sends + extra, apply);
    assert(layout.panes@.skip(1).len() == layout.panes@.len() - 1);
}

/// The error when a fresh session came up but the requested attach failed:
/// the session stands, the caller is told both.
pub fn start_attach_failed_error(session_name: &str, err: &TmuxrsError) -> (e: TmuxrsError)
    ensures
        e matches TmuxrsError::TmuxError(m) && m@ == "Started session '"@ + session_name@
            + "' but failed to attach: "@ + err.spec_message(),
{
    let detail = err.message();
    TmuxrsError::TmuxError(
        String::from_str("Started session '").concat(session_name).concat(
            "' but failed to attach: ",
        ).concat(detail.as_str()),
    )
}

} // verus!
