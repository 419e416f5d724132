//! The tmux control-plane client: a builder for the argument vector of one
//! tmux invocation, a constructor for each operation the orchestrator
//! issues, and the reading of the existence probe's outcome.

use vstd::prelude::*;
use vstd::string::{StrSliceExecFns, StringExecFns};

use crate::error::TmuxrsError;
use crate::text::{blank, dec_str, dec_str_signed, i32_to_string, is_blank, usize_to_string};

verus! {

/// View of an optional borrowed string.
pub open spec fn opt_str_view(o: Option<&str>) -> Option<Seq<char>> {
    match o {
        Some(s) => Some(s@),
        None => None,
    }
}

/// A tmux invocation under construction: the argument vector handed to the
/// `tmux` binary, and the server socket it is aimed at.  The library only
/// builds these values; running them is the caller's business.
#[derive(Debug)]
pub struct TmuxCommand {
    pub args: Vec<String>,
    pub socket_path: Option<String>,
}

impl TmuxCommand {
    /// The argument vector, as a sequence of character sequences.
    pub open spec fn argv(self) -> Seq<Seq<char>> {
        self.args@.map_values(|s: String| s@)
    }

    /// The socket path, as an optional character sequence.
    pub open spec fn socket_view(self) -> Option<Seq<char>> {
        match self.socket_path {
            Some(s) => Some(s@),
            None => None,
        }
    }

    /// The complete vector passed to the `tmux` binary: a `-S <socket>`
    /// prefix when a socket is set, then the built arguments.
    pub open spec fn full_argv(self) -> Seq<Seq<char>> {
        match self.socket_view() {
            Some(s) => seq!["-S"@, s] + self.argv(),
            None => self.argv(),
        }
    }

    /// Creates a command with no arguments, aimed at the default server.
    pub fn new() -> (r: Self)
        ensures
            r.argv() == Seq::<Seq<char>>::empty(),
            r.socket_view() is None,
    {
        let r = TmuxCommand { args: Vec::new(), socket_path: None };
        proof {
            assert(r.argv() =~= Seq::<Seq<char>>::empty());
        }
        r
    }

    /// Creates a command with no arguments, aimed at the server on the given
    /// socket.
    pub fn with_socket(socket_path: &str) -> (r: Self)
        ensures
            r.argv() == Seq::<Seq<char>>::empty(),
            r.socket_view() == Some(socket_path@),
    {
        let r = TmuxCommand { args: Vec::new(), socket_path: Some(socket_path.to_owned()) };
        proof {
            assert(r.argv() =~= Seq::<Seq<char>>::empty());
        }
        r
    }

    /// Sets the socket path, keeping the arguments.
    pub fn socket(self, socket_path: &str) -> (r: Self)
        ensures
            r.argv() == self.argv(),
            r.socket_view() == Some(socket_path@),
    {
        TmuxCommand { args: self.args, socket_path: Some(socket_path.to_owned()) }
    }

    /// Appends one argument.
    pub fn arg(self, a: &str) -> (r: Self)
        ensures
            r.argv() == self.argv().push(a@),
            r.socket_view() == self.socket_view(),
    {
        let ghost orig = self;
        let mut args = self.args;
        args.push(a.to_owned());
        let r = TmuxCommand { args, socket_path: self.socket_path };
        proof {
            assert(r.argv() =~= orig.argv().push(a@));
        }
        r
    }

    /// The full vector for execution, socket selection included.
    pub fn full_args(&self) -> (r: Vec<String>)
        ensures
            r@.map_values(|s: String| s@) == self.full_argv(),
    {
        let mut v: Vec<String> = Vec::new();
        let sock_len: usize;
        match &self.socket_path {
            Some(s) => {
                v.push("-S".to_owned());
                v.push(s.clone());
                sock_len = 2;
            },
            None => {
                sock_len = 0;
            },
        }
        let mut i: usize = 0;
        while i < self.args.len()
            invariant
                i <= self.args.len(),
                v@.len() == sock_len + i,
                sock_len == (if self.socket_path is Some {
                    2int
                } else {
                    0int
                }),
                self.full_argv().len() == sock_len + self.args.len(),
                forall|j: int| 0 <= j < v@.len() ==> v@[j]@ == self.full_argv()[j],
            decreases self.args.len() - i,
        {
            let a = self.args[i].clone();
            v.push(a);
            proof {
                assert(self.full_argv()[sock_len + i] == self.argv()[i as int]);
            }
            i = i + 1;
        }
        proof {
            assert(v@.map_values(|s: String| s@) =~= self.full_argv());
        }
        v
    }
}

/// `session:window`, the address of a window within a session.
pub open spec fn spec_window_target(session: Seq<char>, window: Seq<char>) -> Seq<char> {
    session + ":"@ + window
}

/// `session:window.pane`, the address of a single pane.
pub open spec fn spec_pane_target(session: Seq<char>, window: Seq<char>, pane: nat) -> Seq<char> {
    session + ":"@ + window + "."@ + dec_str(pane)
}

/// The split target: the bare session when no window name is given, else the
/// window address.
pub open spec fn spec_split_target(session: Seq<char>, window: Seq<char>) -> Seq<char> {
    if window.len() == 0 {
        session
    } else {
        spec_window_target(session, window)
    }
}

/// Formats a window address.
pub fn window_target(session: &str, window: &str) -> (r: String)
    ensures
        r@ == spec_window_target(session@, window@),
{
    String::from_str(session).concat(":").concat(window)
}

/// Formats a pane address.
pub fn pane_target(session: &str, window: &str, pane: usize) -> (r: String)
    ensures
        r@ == spec_pane_target(session@, window@, pane as nat),
{
    let idx = usize_to_string(pane);
    String::from_str(session).concat(":").concat(window).concat(".").concat(idx.as_str())
}

fn split_target(session: &str, window: &str) -> (r: String)
    ensures
        r@ == spec_split_target(session@, window@),
{
    if window.is_empty() {
        String::from_str(session)
    } else {
        window_target(session, window)
    }
}

/// Argument vector of the session-existence probe.
pub open spec fn spec_has_session_argv(session: Seq<char>) -> Seq<Seq<char>> {
    seq!["has-session"@, "-t"@, session]
}

/// Argument vector of detached session creation with a working directory.
pub open spec fn spec_new_session_argv(session: Seq<char>, dir: Seq<char>) -> Seq<Seq<char>> {
    seq!["new-session"@, "-d"@, "-s"@, session, "-c"@, dir]
}

/// Argument vector that forces `base-index` to 0 on a session.
pub open spec fn spec_set_base_index_argv(session: Seq<char>) -> Seq<Seq<char>> {
    seq!["set-option"@, "-t"@, session, "base-index"@, "0"@]
}

/// Argument vector that forces `pane-base-index` to 0 on a session.
pub open spec fn spec_set_pane_base_index_argv(session: Seq<char>) -> Seq<Seq<char>> {
    seq!["set-option"@, "-t"@, session, "pane-base-index"@, "0"@]
}

/// Argument vector that kills one session.
pub open spec fn spec_kill_session_argv(session: Seq<char>) -> Seq<Seq<char>> {
    seq!["kill-session"@, "-t"@, session]
}

/// Argument vector that kills the whole server.
pub open spec fn spec_kill_server_argv() -> Seq<Seq<char>> {
    seq!["kill-server"@]
}

/// Argument vector of the interactive attach.
pub open spec fn spec_attach_session_argv(session: Seq<char>) -> Seq<Seq<char>> {
    seq!["attach-session"@, "-t"@, session]
}

/// Argument vector that applies a layout to a window.
pub open spec fn spec_select_layout_argv(
    session: Seq<char>,
    window: Seq<char>,
    layout: Seq<char>,
) -> Seq<Seq<char>> {
    seq!["select-layout"@, "-t"@, spec_split_target(session, window), layout]
}

/// Argument vector that renames a window in place.
pub open spec fn spec_rename_window_argv(
    session: Seq<char>,
    window: Seq<char>,
    new_name: Seq<char>,
) -> Seq<Seq<char>> {
    seq!["rename-window"@, "-t"@, spec_window_target(session, window), new_name]
}

/// Argument vector that asks the server for the index of each window of a
/// session, one per line, in order.
pub open spec fn spec_list_window_indexes_argv(session: Seq<char>) -> Seq<Seq<char>> {
    seq!["list-windows"@, "-t"@, session, "-F"@, "#{window_index}"@]
}

fn apply_socket(cmd: TmuxCommand, socket_path: Option<&str>) -> (r: TmuxCommand)
    ensures
        r.argv() == cmd.argv(),
        r.socket_view() == opt_str_view(socket_path),
{
    match socket_path {
        Some(s) => cmd.socket(s),
        None => TmuxCommand { args: cmd.args, socket_path: None },
    }
}

impl TmuxCommand {
    /// Builds the probe whose success means the session is present.
    pub fn session_exists(session_name: &str) -> (r: TmuxCommand)
        ensures
            r.argv() == spec_has_session_argv(session_name@),
            r.socket_view() is None,
    {
        Self::session_exists_with_socket(session_name, None)
    }

    /// Builds the session-existence probe aimed at a specific socket.
    pub fn session_exists_with_socket(session_name: &str, socket_path: Option<&str>) -> (r:
        TmuxCommand)
        ensures
            r.argv() == spec_has_session_argv(session_name@),
            r.socket_view() == opt_str_view(socket_path),
    {
        let cmd = TmuxCommand::new().arg("has-session").arg("-t").arg(session_name);
        proof {
            assert(cmd.argv() =~= spec_has_session_argv(session_name@));
        }
        apply_socket(cmd, socket_path)
    }

    /// Builds detached session creation with the given working directory.
    pub fn new_session(session_name: &str, working_dir: &str) -> (r: TmuxCommand)
        ensures
            r.argv() == spec_new_session_argv(session_name@, working_dir@),
            r.socket_view() is None,
    {
        Self::new_session_with_socket(session_name, working_dir, None)
    }

    /// Builds detached session creation aimed at a specific socket.
    pub fn new_session_with_socket(
        session_name: &str,
        working_dir: &str,
        socket_path: Option<&str>,
    ) -> (r: TmuxCommand)
        ensures
            r.argv() == spec_new_session_argv(session_name@, working_dir@),
            r.socket_view() == opt_str_view(socket_path),
    {
        let cmd = TmuxCommand::new().arg("new-session").arg("-d").arg("-s").arg(session_name).arg(
            "-c",
        ).arg(working_dir);
        proof {
            assert(cmd.argv() =~= spec_new_session_argv(session_name@, working_dir@));
        }
        apply_socket(cmd, socket_path)
    }

    /// Builds the option call that forces `base-index` to 0.
    pub fn set_base_index(session_name: &str) -> (r: TmuxCommand)
        ensures
            r.argv() == spec_set_base_index_argv(session_name@),
            r.socket_view() is None,
    {
        Self::set_base_index_with_socket(session_name, None)
    }

    /// Builds the `base-index` option call aimed at a specific socket.
    pub fn set_base_index_with_socket(session_name: &str, socket_path: Option<&str>) -> (r:
        TmuxCommand)
        ensures
            r.argv() == spec_set_base_index_argv(session_name@),
            r.socket_view() == opt_str_view(socket_path),
    {
        let cmd = TmuxCommand::new().arg("set-option").arg("-t").arg(session_name).arg(
            "base-index",
        ).arg("0");
        proof {
            assert(cmd.argv() =~= spec_set_base_index_argv(session_name@));
        }
        apply_socket(cmd, socket_path)
    }

    /// Builds the option call that forces `pane-base-index` to 0.
    pub fn set_pane_base_index(session_name: &str) -> (r: TmuxCommand)
        ensures
            r.argv() == spec_set_pane_base_index_argv(session_name@),
            r.socket_view() is None,
    {
        Self::set_pane_base_index_with_socket(session_name, None)
    }

    /// Builds the `pane-base-index` option call aimed at a specific socket.
    pub fn set_pane_base_index_with_socket(session_name: &str, socket_path: Option<&str>) -> (r:
        TmuxCommand)
        ensures
            r.argv() == spec_set_pane_base_index_argv(session_name@),
            r.socket_view() == opt_str_view(socket_path),
    {
        let cmd = TmuxCommand::new().arg("set-option").arg("-t").arg(session_name).arg(
            "pane-base-index",
        ).arg("0");
        proof {
            assert(cmd.argv() =~= spec_set_pane_base_index_argv(session_name@));
        }
        apply_socket(cmd, socket_path)
    }

    /// Builds the call that kills one session.
    pub fn kill_session(session_name: &str) -> (r: TmuxCommand)
        ensures
            r.argv() == spec_kill_session_argv(session_name@),
            r.socket_view() is None,
    {
        Self::kill_session_with_socket(session_name, None)
    }

    /// Builds the kill-session call aimed at a specific socket.
    pub fn kill_session_with_socket(session_name: &str, socket_path: Option<&str>) -> (r:
        TmuxCommand)
        ensures
            r.argv() == spec_kill_session_argv(session_name@),
            r.socket_view() == opt_str_view(socket_path),
    {
        let cmd = TmuxCommand::new().arg("kill-session").arg("-t").arg(session_name);
        proof {
            assert(cmd.argv() =~= spec_kill_session_argv(session_name@));
        }
        apply_socket(cmd, socket_path)
    }

    /// Builds the call that kills the whole server.
    pub fn kill_server() -> (r: TmuxCommand)
        ensures
            r.argv() == spec_kill_server_argv(),
            r.socket_view() is None,
    {
        Self::kill_server_with_socket(None)
    }

    /// Builds the kill-server call aimed at a specific socket.
    pub fn kill_server_with_socket(socket_path: Option<&str>) -> (r: TmuxCommand)
        ensures
            r.argv() == spec_kill_server_argv(),
            r.socket_view() == opt_str_view(socket_path),
    {
        let cmd = TmuxCommand::new().arg("kill-server");
        proof {
            assert(cmd.argv() =~= spec_kill_server_argv());
        }
        apply_socket(cmd, socket_path)
    }

    /// Builds the interactive attach.  The caller must run it with the
    /// terminal inherited, and only after checking that one is available.
    pub fn attach_session(session_name: &str) -> (r: TmuxCommand)
        ensures
            r.argv() == spec_attach_session_argv(session_name@),
            r.socket_view() is None,
    {
        Self::attach_session_with_socket(session_name, None)
    }

    /// Builds the interactive attach aimed at a specific socket.
    pub fn attach_session_with_socket(session_name: &str, socket_path: Option<&str>) -> (r:
        TmuxCommand)
        ensures
            r.argv() == spec_attach_session_argv(session_name@),
            r.socket_view() == opt_str_view(socket_path),
    {
        let cmd = TmuxCommand::new().arg("attach-session").arg("-t").arg(session_name);
        proof {
            assert(cmd.argv() =~= spec_attach_session_argv(session_name@));
        }
        apply_socket(cmd, socket_path)
    }

    /// Builds the call that applies a named layout to a window.
    pub fn select_layout(session_name: &str, window_name: &str, layout: &str) -> (r: TmuxCommand)
        ensures
            r.argv() == spec_select_layout_argv(session_name@, window_name@, layout@),
            r.socket_view() is None,
    {
        Self::select_layout_with_socket(session_name, window_name, layout, None)
    }

    /// Builds the select-layout call aimed at a specific socket.
    pub fn select_layout_with_socket(
        session_name: &str,
        window_name: &str,
        layout: &str,
        socket_path: Option<&str>,
    ) -> (r: TmuxCommand)
        ensures
            r.argv() == spec_select_layout_argv(session_name@, window_name@, layout@),
            r.socket_view() == opt_str_view(socket_path),
    {
        let target = split_target(session_name, window_name);
        let cmd = TmuxCommand::new().arg("select-layout").arg("-t").arg(target.as_str()).arg(
            layout,
        );
        proof {
            assert(cmd.argv() =~= spec_select_layout_argv(session_name@, window_name@, layout@));
        }
        apply_socket(cmd, socket_path)
    }

    /// Builds the call that renames a window in place; used on the window the
    /// server created on its own along with the session.
    pub fn rename_window(session_name: &str, window: &str, new_name: &str) -> (r: TmuxCommand)
        ensures
            r.argv() == spec_rename_window_argv(session_name@, window@, new_name@),
            r.socket_view() is None,
    {
        Self::rename_window_with_socket(session_name, window, new_name, None)
    }

    /// Builds the rename-window call aimed at a specific socket.
    pub fn rename_window_with_socket(
        session_name: &str,
        window: &str,
        new_name: &str,
        socket_path: Option<&str>,
    ) -> (r: TmuxCommand)
        ensures
            r.argv() == spec_rename_window_argv(session_name@, window@, new_name@),
            r.socket_view() == opt_str_view(socket_path),
    {
        let target = window_target(session_name, window);
        let cmd = TmuxCommand::new().arg("rename-window").arg("-t").arg(target.as_str()).arg(
            new_name,
        );
        proof {
            assert(cmd.argv() =~= spec_rename_window_argv(session_name@, window@, new_name@));
        }
        apply_socket(cmd, socket_path)
    }

    /// Builds the query for the indexes of a session's windows.  The first
    /// line of its output is the index of the window the server auto-created,
    /// which is not guaranteed to be 0.
    pub fn list_window_indexes(session_name: &str) -> (r: TmuxCommand)
        ensures
            r.argv() == spec_list_window_indexes_argv(session_name@),
            r.socket_view() is None,
    {
        Self::list_window_indexes_with_socket(session_name, None)
    }

    /// Builds the window-index query aimed at a specific socket.
    pub fn list_window_indexes_with_socket(session_name: &str, socket_path: Option<&str>) -> (r:
        TmuxCommand)
        ensures
            r.argv() == spec_list_window_indexes_argv(session_name@),
            r.socket_view() == opt_str_view(socket_path),
    {
        let cmd = TmuxCommand::new().arg("list-windows").arg("-t").arg(session_name).arg(
            "-F",
        ).arg("#{window_index}");
        proof {
            assert(cmd.argv() =~= spec_list_window_indexes_argv(session_name@));
        }
        apply_socket(cmd, socket_path)
    }

    /// Builds window creation.  A command is never passed here during
    /// materialization: a window is created bare and its command is sent
    /// afterwards, so the shell can finish initializing first.
    pub fn new_window(
        session_name: &str,
        window_name: &str,
        command: Option<&str>,
        working_dir: Option<&str>,
    ) -> (r: TmuxCommand)
        ensures
            r.argv() == spec_new_window_argv(
                session_name@,
                window_name@,
                opt_str_view(command),
                opt_str_view(working_dir),
            ),
            r.socket_view() is None,
    {
        Self::new_window_with_socket(session_name, window_name, command, working_dir, None)
    }

    /// Builds window creation aimed at a specific socket.
    pub fn new_window_with_socket(
        session_name: &str,
        window_name: &str,
        command: Option<&str>,
        working_dir: Option<&str>,
        socket_path: Option<&str>,
    ) -> (r: TmuxCommand)
        ensures
            r.argv() == spec_new_window_argv(
                session_name@,
                window_name@,
                opt_str_view(command),
                opt_str_view(working_dir),
            ),
            r.socket_view() == opt_str_view(socket_path),
    {
        let mut cmd = TmuxCommand::new().arg("new-window").arg("-t").arg(session_name).arg(
            "-n",
        ).arg(window_name);
        match working_dir {
            Some(dir) => {
                cmd = cmd.arg("-c").arg(dir);
            },
            None => {},
        }
        match command {
            Some(c) => {
                cmd = cmd.arg(c);
            },
            None => {},
        }
        proof {
            assert(cmd.argv() =~= spec_new_window_argv(
                session_name@,
                window_name@,
                opt_str_view(command),
                opt_str_view(working_dir),
            ));
        }
        apply_socket(cmd, socket_path)
    }

    /// Builds the keystroke delivery to a window: the command text, then a
    /// virtual Enter.
    pub fn send_keys(session_name: &str, window_name: &str, keys: &str) -> (r: TmuxCommand)
        ensures
            r.argv() == spec_send_keys_argv(session_name@, window_name@, keys@),
            r.socket_view() is None,
    {
        Self::send_keys_with_socket(session_name, window_name, keys, None)
    }

    /// Builds the keystroke delivery aimed at a specific socket.
    pub fn send_keys_with_socket(
        session_name: &str,
        window_name: &str,
        keys: &str,
        socket_path: Option<&str>,
    ) -> (r: TmuxCommand)
        ensures
            r.argv() == spec_send_keys_argv(session_name@, window_name@, keys@),
            r.socket_view() == opt_str_view(socket_path),
    {
        let target = window_target(session_name, window_name);
        let cmd = TmuxCommand::new().arg("send-keys").arg("-t").arg(target.as_str()).arg(keys).arg(
            "Enter",
        );
        proof {
            assert(cmd.argv() =~= spec_send_keys_argv(session_name@, window_name@, keys@));
        }
        apply_socket(cmd, socket_path)
    }

    /// Builds the keystroke delivery to one pane, addressed by its zero-based
    /// index.
    pub fn send_keys_to_pane(
        session_name: &str,
        window_name: &str,
        pane_index: usize,
        keys: &str,
    ) -> (r: TmuxCommand)
        ensures
            r.argv() == spec_send_keys_to_pane_argv(
                session_name@,
                window_name@,
                pane_index as nat,
                keys@,
            ),
            r.socket_view() is None,
    {
        Self::send_keys_to_pane_with_socket(session_name, window_name, pane_index, keys, None)
    }

    /// Builds the pane keystroke delivery aimed at a specific socket.
    pub fn send_keys_to_pane_with_socket(
        session_name: &str,
        window_name: &str,
        pane_index: usize,
        keys: &str,
        socket_path: Option<&str>,
    ) -> (r: TmuxCommand)
        ensures
            r.argv() == spec_send_keys_to_pane_argv(
                session_name@,
                window_name@,
                pane_index as nat,
                keys@,
            ),
            r.socket_view() == opt_str_view(socket_path),
    {
        let target = pane_target(session_name, window_name, pane_index);
        let cmd = TmuxCommand::new().arg("send-keys").arg("-t").arg(target.as_str()).arg(keys).arg(
            "Enter",
        );
        proof {
            assert(cmd.argv() =~= spec_send_keys_to_pane_argv(
                session_name@,
                window_name@,
                pane_index as nat,
                keys@,
            ));
        }
        apply_socket(cmd, socket_path)
    }

    /// Builds a side-by-side split.  A blank command is left out, so the new
    /// pane starts a bare shell.
    pub fn split_window_horizontal(
        session_name: &str,
        window_name: &str,
        command: &str,
        working_dir: Option<&str>,
    ) -> (r: TmuxCommand)
        ensures
            r.argv() == spec_split_argv(
                true,
                session_name@,
                window_name@,
                command@,
                opt_str_view(working_dir),
            ),
            r.socket_view() is None,
    {
        Self::split_window_horizontal_with_socket(
            session_name,
            window_name,
            command,
            working_dir,
            None,
        )
    }

    /// Builds a side-by-side split aimed at a specific socket.
    pub fn split_window_horizontal_with_socket(
        session_name: &str,
        window_name: &str,
        command: &str,
        working_dir: Option<&str>,
        socket_path: Option<&str>,
    ) -> (r: TmuxCommand)
        ensures
            r.argv() == spec_split_argv(
                true,
                session_name@,
                window_name@,
                command@,
                opt_str_view(working_dir),
            ),
            r.socket_view() == opt_str_view(socket_path),
    {
        Self::split_window(true, session_name, window_name, command, working_dir, socket_path)
    }

    /// Builds an above-and-below split.  A blank command is left out, so the
    /// new pane starts a bare shell.
    pub fn split_window_vertical(
        session_name: &str,
        window_name: &str,
        command: &str,
        working_dir: Option<&str>,
    ) -> (r: TmuxCommand)
        ensures
            r.argv() == spec_split_argv(
                false,
                session_name@,
                window_name@,
                command@,
                opt_str_view(working_dir),
            ),
            r.socket_view() is None,
    {
        Self::split_window_vertical_with_socket(
            session_name,
            window_name,
            command,
            working_dir,
            None,
        )
    }

    /// Builds an above-and-below split aimed at a specific socket.
    pub fn split_window_vertical_with_socket(
        session_name: &str,
        window_name: &str,
        command: &str,
        working_dir: Option<&str>,
        socket_path: Option<&str>,
    ) -> (r: TmuxCommand)
        ensures
            r.argv() == spec_split_argv(
                false,
                session_name@,
                window_name@,
                command@,
                opt_str_view(working_dir),
            ),
            r.socket_view() == opt_str_view(socket_path),
    {
        Self::split_window(false, session_name, window_name, command, working_dir, socket_path)
    }

    fn split_window(
        horizontal: bool,
        session_name: &str,
        window_name: &str,
        command: &str,
        working_dir: Option<&str>,
        socket_path: Option<&str>,
    ) -> (r: TmuxCommand)
        ensures
            r.argv() == spec_split_argv(
                horizontal,
                session_name@,
                window_name@,
                command@,
                opt_str_view(working_dir),
            ),
            r.socket_view() == opt_str_view(socket_path),
    {
        let target = split_target(session_name, window_name);
        let mut cmd = TmuxCommand::new().arg("split-window");
        if horizontal {
            cmd = cmd.arg("-h");
        } else {
            cmd = cmd.arg("-v");
        }
        cmd = cmd.arg("-t").arg(target.as_str());
        match working_dir {
            Some(dir) => {
                cmd = cmd.arg("-c").arg(dir);
            },
            None => {},
        }
        if !is_blank(command) {
            cmd = cmd.arg(command);
        }
        proof {
            assert(cmd.argv() =~= spec_split_argv(
                horizontal,
                session_name@,
                window_name@,
                command@,
                opt_str_view(working_dir),
            ));
        }
        apply_socket(cmd, socket_path)
    }
}

/// Argument vector of window creation: target session, window name, then the
/// optional working directory and the optional command.
pub open spec fn spec_new_window_argv(
    session: Seq<char>,
    window: Seq<char>,
    command: Option<Seq<char>>,
    dir: Option<Seq<char>>,
) -> Seq<Seq<char>> {
    let base = seq!["new-window"@, "-t"@, session, "-n"@, window];
    let with_dir = match dir {
        Some(d) => base + seq!["-c"@, d],
        None => base,
    };
    match command {
        Some(c) => with_dir.push(c),
        None => with_dir,
    }
}

/// Argument vector of keystroke delivery to a window.
pub open spec fn spec_send_keys_argv(
    session: Seq<char>,
    window: Seq<char>,
    keys: Seq<char>,
) -> Seq<Seq<char>> {
    seq!["send-keys"@, "-t"@, spec_window_target(session, window), keys, "Enter"@]
}

/// Argument vector of keystroke delivery to one pane.
pub open spec fn spec_send_keys_to_pane_argv(
    session: Seq<char>,
    window: Seq<char>,
    pane: nat,
    keys: Seq<char>,
) -> Seq<Seq<char>> {
    seq!["send-keys"@, "-t"@, spec_pane_target(session, window, pane), keys, "Enter"@]
}

/// Argument vector of a pane split; a blank command is left out entirely.
pub open spec fn spec_split_argv(
    horizontal: bool,
    session: Seq<char>,
    window: Seq<char>,
    command: Seq<char>,
    dir: Option<Seq<char>>,
) -> Seq<Seq<char>> {
    let flag = if horizontal {
        "-h"@
    } else {
        "-v"@
    };
    let base = seq!["split-window"@, flag, "-t"@, spec_split_target(session, window)];
    let with_dir = match dir {
        Some(d) => base + seq!["-c"@, d],
        None => base,
    };
    if blank(command) {
        with_dir
    } else {
        with_dir.push(command)
    }
}

/// Extracts the first output line of the window-index query: the index at
/// which the server placed a session's first window.
pub fn parse_first_window_index(output: &str) -> (r: String)
    ensures
        r@.len() <= output@.len(),
        r@ == output@.take(r@.len() as int),
        forall|j: int| 0 <= j < r@.len() ==> output@[j] != '\n',
        r@.len() < output@.len() ==> output@[r@.len() as int] == '\n',
{
    let len = output.unicode_len();
    let mut end: usize = 0;
    let mut found = false;
    while end < len && !found
        invariant
            end <= len,
            len == output@.len(),
            forall|j: int| 0 <= j < end ==> output@[j] != '\n',
            found ==> end < len && output@[end as int] == '\n',
        decreases
                len - end,
                (if found {
                    0int
                } else {
                    1int
                }),
    {
        if output.get_char(end) == '\n' {
            found = true;
        } else {
            end = end + 1;
        }
    }
    let line = output.substring_char(0, end);
    proof {
        assert(line@ =~= output@.take(end as int));
    }
    line.to_owned()
}

/// Classifies one finished fire-and-forget command, as the executor reads
/// it: exit status 0 yields the captured standard output, any other exit
/// yields the captured standard-error text verbatim as the failure.
pub fn classify_output(success: bool, stdout: String, stderr: String) -> (r: Result<
    String,
    TmuxrsError,
>)
    ensures
        match r {
            Ok(out) => success && out@ == stdout@,
            Err(e) => !success && (e matches TmuxrsError::TmuxError(m) && m@ == stderr@),
        },
{
    if success {
        Ok(stdout)
    } else {
        Err(TmuxrsError::TmuxError(stderr))
    }
}

/// The refusal to attach without a controlling terminal, raised before
/// anything would be spawned that could hang waiting for one.
pub fn no_tty_error() -> (e: TmuxrsError)
    ensures
        e matches TmuxrsError::TmuxError(m) && m@
            == "Failed to attach: No TTY available (running in non-interactive environment like Docker)"@,
{
    TmuxrsError::TmuxError(
        String::from_str(
            "Failed to attach: No TTY available (running in non-interactive environment like Docker)",
        ),
    )
}

/// The failure to start the tmux binary at all, carrying the system's
/// report.
pub fn spawn_failed_error(detail: &str) -> (e: TmuxrsError)
    ensures
        e matches TmuxrsError::TmuxError(m) && m@ == "Failed to execute tmux: "@ + detail@,
{
    TmuxrsError::TmuxError(String::from_str("Failed to execute tmux: ").concat(detail))
}

/// The failure to wait on the spawned tmux, carrying the system's report.
pub fn wait_failed_error(detail: &str) -> (e: TmuxrsError)
    ensures
        e matches TmuxrsError::TmuxError(m) && m@ == "Failed to wait for tmux: "@ + detail@,
{
    TmuxrsError::TmuxError(String::from_str("Failed to wait for tmux: ").concat(detail))
}

/// The failure of an interactive run, carrying the exit code of the spawned
/// tmux.
pub fn interactive_exit_error(code: i32) -> (e: TmuxrsError)
    ensures
        e matches TmuxrsError::TmuxError(m) && m@ == "tmux command failed with exit code: "@
            + dec_str_signed(code as int),
{
    let digits = i32_to_string(code);
    TmuxrsError::TmuxError(
        String::from_str("tmux command failed with exit code: ").concat(digits.as_str()),
    )
}

/// The reading of the existence probe's outcome: success means the session is
/// present, and any failure is read as "absent" — unreachable servers are
/// indistinguishable from missing sessions here, by design.
pub open spec fn spec_session_present(outcome: Result<String, TmuxrsError>) -> bool {
    outcome is Ok
}

/// Classifies the outcome of the existence probe.
pub fn session_present(outcome: &Result<String, TmuxrsError>) -> (r: bool)
    ensures
        r == spec_session_present(*outcome),
{
    match outcome {
        Ok(_) => true,
        Err(_) => false,
    }
}

/// The existence check is a pure reading of the probe's outcome: probes of
/// the same session build the same command, and two runs whose outcomes agree
/// on success classify alike.  With no intervening mutation the control plane
/// answers the same probe the same way, so checking twice in a row returns
/// the same boolean both times.
pub proof fn lemma_session_exists_idempotent(
    o1: Result<String, TmuxrsError>,
    o2: Result<String, TmuxrsError>,
)
    requires
        o1 is Ok <==> o2 is Ok,
    ensures
        spec_session_present(o1) == spec_session_present(o2),
{
}

} // verus!
