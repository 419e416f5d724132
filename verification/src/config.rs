//! The session descriptor: the window and pane shapes a configuration may
//! take, the structural classifier that reads them off a parsed YAML tree in
//! a fixed priority, and the places configurations are found.

use vstd::prelude::*;
use vstd::string::{StrSliceExecFns, StringExecFns};

use crate::error::TmuxrsError;
use crate::text::{blank, is_blank, str_eq};

verus! {

/// A parsed YAML document, reduced to the shapes the configuration grammar
/// distinguishes: null, scalar string, sequence, mapping, and everything
/// else.  Mapping entries keep document order.
#[derive(Debug)]
pub enum YamlNode {
    Null,
    Str(String),
    List(Vec<YamlNode>),
    Mapping(Vec<(YamlNode, YamlNode)>),
    Other,
}

/// The command part of a named pane: one command, several, or a value of
/// another shape, which runs nothing.
#[derive(Debug)]
pub enum PaneCommands {
    One(String),
    Many(Vec<String>),
    Other,
}

/// One pane as authored: a bare command, a list of commands, a named pane,
/// or an explicitly empty pane.
#[derive(Debug)]
pub enum PaneConfig {
    Multiple(Vec<String>),
    Named { name: String, value: PaneCommands },
    Simple(String),
    Null,
}

/// A window with an explicit pane layout.
#[derive(Debug)]
pub struct WindowLayout {
    pub layout: Option<String>,
    pub panes: Vec<PaneConfig>,
}

/// One window as authored: a bare command, a named window with one command,
/// or a named window with a pane layout.
#[derive(Debug)]
pub enum WindowConfig {
    Simple(String),
    Complex { name: String, command: String },
    WithLayout { name: String, layout: WindowLayout },
}

/// A whole session description: its name, the optional working-directory
/// root, and the windows in document order.
#[derive(Debug)]
pub struct Config {
    pub name: String,
    pub root: Option<String>,
    pub windows: Vec<WindowConfig>,
}

impl PaneConfig {
    /// The commands this pane runs, in order: none for `Null`, for a blank
    /// `Simple`, for a blank single-valued `Named` and for a `Named` whose
    /// value has another shape; the one command of a non-blank `Simple` or
    /// single-valued `Named`; and the listed commands of `Multiple` or a
    /// list-valued `Named`.
    pub open spec fn spec_commands(self) -> Seq<Seq<char>> {
        match self {
            PaneConfig::Simple(cmd) => if blank(cmd@) {
                Seq::empty()
            } else {
                seq![cmd@]
            },
            PaneConfig::Multiple(cmds) => cmds.deep_view(),
            PaneConfig::Named { name: _, value } => match value {
                PaneCommands::One(cmd) => if blank(cmd@) {
                    Seq::empty()
                } else {
                    seq![cmd@]
                },
                PaneCommands::Many(cmds) => cmds.deep_view(),
                PaneCommands::Other => Seq::empty(),
            },
            PaneConfig::Null => Seq::empty(),
        }
    }

    /// Normalizes the pane to its ordered command list.  Total: every pane
    /// yields a list, never an error.
    pub fn commands(&self) -> (r: Vec<String>)
        ensures
            r.deep_view() == self.spec_commands(),
    {
        match self {
            PaneConfig::Simple(cmd) => one_or_empty(cmd),
            PaneConfig::Multiple(cmds) => clone_strings(cmds),
            PaneConfig::Named { name: _, value } => match value {
                PaneCommands::One(cmd) => one_or_empty(cmd),
                PaneCommands::Many(cmds) => clone_strings(cmds),
                PaneCommands::Other => empty_strings(),
            },
            PaneConfig::Null => empty_strings(),
        }
    }

    /// Whether the pane runs nothing: its command list is empty.
    pub fn is_empty(&self) -> (r: bool)
        ensures
            r == (self.spec_commands().len() == 0),
    {
        let cmds = self.commands();
        cmds.len() == 0
    }

    /// The declared name, present exactly on the `Named` variant.
    pub fn name(&self) -> (r: Option<String>)
        ensures
            match *self {
                PaneConfig::Named { name, value: _ } => r matches Some(n) && n@ == name@,
                _ => r is None,
            },
    {
        match self {
            PaneConfig::Named { name, value: _ } => Some(name.clone()),
            _ => None,
        }
    }
}

/// For every pane, `commands` is total and its length is fixed by the
/// variant: 0 for `Null` and for a blank `Simple` command, 1 for a non-blank
/// `Simple` and for a non-blank single-valued `Named`, and the number of
/// entries for `Multiple` and for a list-valued `Named`.
pub proof fn lemma_pane_commands_lengths(p: PaneConfig)
    ensures
        p is Null ==> p.spec_commands().len() == 0,
        p matches PaneConfig::Simple(c) ==> p.spec_commands().len() == (if blank(c@) {
            0int
        } else {
            1int
        }),
        p matches PaneConfig::Multiple(cs) ==> p.spec_commands().len() == cs@.len(),
        p matches PaneConfig::Named { name: _, value: PaneCommands::One(c) }
            ==> p.spec_commands().len() == (if blank(c@) {
            0int
        } else {
            1int
        }),
        p matches PaneConfig::Named { name: _, value: PaneCommands::Many(cs) }
            ==> p.spec_commands().len() == cs@.len(),
        p matches PaneConfig::Named { name: _, value: PaneCommands::Other }
            ==> p.spec_commands().len() == 0,
{
}

/// Whether every item of a sequence node is a string scalar.
pub open spec fn all_str(items: Seq<YamlNode>) -> bool {
    forall|i: int| 0 <= i < items.len() ==> items[i] is Str
}

/// The values of a sequence of string scalars, in order.
pub open spec fn str_values(items: Seq<YamlNode>) -> Seq<Seq<char>> {
    items.map_values(
        |n: YamlNode|
            match n {
                YamlNode::Str(s) => s@,
                _ => Seq::<char>::empty(),
            },
    )
}

/// The string items of a mixed sequence, in order; items of another shape
/// are dropped.
pub open spec fn str_items(items: Seq<YamlNode>) -> Seq<Seq<char>>
    decreases items.len(),
{
    if items.len() == 0 {
        Seq::empty()
    } else {
        let rest = str_items(items.drop_last());
        match items.last() {
            YamlNode::Str(s) => rest.push(s@),
            _ => rest,
        }
    }
}

/// The value under the first entry of a mapping whose key is the given
/// string, if any.
pub open spec fn spec_find(entries: Seq<(YamlNode, YamlNode)>, key: Seq<char>) -> Option<YamlNode>
    decreases entries.len(),
{
    if entries.len() == 0 {
        None
    } else if entries[0].0 matches YamlNode::Str(k) && k@ == key {
        Some(entries[0].1)
    } else {
        spec_find(entries.drop_first(), key)
    }
}

/// Whether a named pane's value classifies as the given command part.
pub open spec fn pane_value_matches(v: YamlNode, pc: PaneCommands) -> bool {
    match v {
        YamlNode::Str(s) => pc matches PaneCommands::One(c) && c@ == s@,
        YamlNode::List(items) => pc matches PaneCommands::Many(cs) && cs.deep_view() == str_items(
            items@,
        ),
        _ => pc is Other,
    }
}

/// Whether a node has one of the pane shapes.  The shapes are tried in a
/// fixed priority: null, scalar, all-string sequence, then a mapping that is
/// empty or holds a single string-keyed entry; anything else is a
/// configuration error.
pub open spec fn pane_ok(node: YamlNode) -> bool {
    match node {
        YamlNode::Null => true,
        YamlNode::Str(_) => true,
        YamlNode::List(items) => all_str(items@),
        YamlNode::Mapping(entries) => entries@.len() == 0 || (entries@.len() == 1
            && entries@[0].0 is Str),
        YamlNode::Other => false,
    }
}

/// Whether a pane value is the classification of a node.  An empty mapping
/// runs nothing and has no name, so it classifies as the explicitly empty
/// pane.
pub open spec fn pane_matches(node: YamlNode, p: PaneConfig) -> bool {
    match node {
        YamlNode::Null => p is Null,
        YamlNode::Str(s) => p matches PaneConfig::Simple(c) && c@ == s@,
        YamlNode::List(items) => p matches PaneConfig::Multiple(cs) && cs.deep_view() == str_values(
            items@,
        ),
        YamlNode::Mapping(entries) => if entries@.len() == 0 {
            p is Null
        } else if entries@.len() == 1 {
            match entries@[0].0 {
                YamlNode::Str(k) => p matches PaneConfig::Named { name, value } && name@ == k@
                    && pane_value_matches(entries@[0].1, value),
                _ => false,
            }
        } else {
            false
        },
        YamlNode::Other => false,
    }
}

/// Whether every item of a sequence has a pane shape.
pub open spec fn panes_ok(items: Seq<YamlNode>) -> bool {
    forall|i: int| 0 <= i < items.len() ==> pane_ok(items[i])
}

/// Whether a pane list is the classification of a sequence, item by item.
pub open spec fn panes_match(items: Seq<YamlNode>, ps: Seq<PaneConfig>) -> bool {
    ps.len() == items.len() && forall|i: int| 0 <= i < items.len() ==> pane_matches(
        items[i],
        ps[i],
    )
}

/// Whether a node has the window-layout shape: a mapping with an optional
/// string `layout` entry and a required `panes` sequence of pane shapes.
pub open spec fn layout_ok(node: YamlNode) -> bool {
    match node {
        YamlNode::Mapping(entries) => {
            &&& match spec_find(entries@, "layout"@) {
                None => true,
                Some(x) => x is Str,
            }
            &&& match spec_find(entries@, "panes"@) {
                Some(YamlNode::List(items)) => panes_ok(items@),
                _ => false,
            }
        },
        _ => false,
    }
}

/// Whether a window layout is the classification of a node.
pub open spec fn layout_matches(node: YamlNode, w: WindowLayout) -> bool {
    match node {
        YamlNode::Mapping(entries) => {
            &&& match spec_find(entries@, "layout"@) {
                None => w.layout is None,
                Some(YamlNode::Str(s)) => w.layout matches Some(l) && l@ == s@,
                Some(_) => false,
            }
            &&& match spec_find(entries@, "panes"@) {
                Some(YamlNode::List(items)) => panes_match(items@, w.panes@),
                _ => false,
            }
        },
        _ => false,
    }
}

/// Whether a node has one of the window shapes: a scalar command, or a
/// mapping with a single string-keyed entry whose value is a scalar command
/// or a window layout.
pub open spec fn window_ok(node: YamlNode) -> bool {
    match node {
        YamlNode::Str(_) => true,
        YamlNode::Mapping(entries) => entries@.len() == 1 && entries@[0].0 is Str && (match entries@[0].1 {
            YamlNode::Str(_) => true,
            m => layout_ok(m),
        }),
        _ => false,
    }
}

/// Whether a window value is the classification of a node.
pub open spec fn window_matches(node: YamlNode, w: WindowConfig) -> bool {
    match node {
        YamlNode::Str(s) => w matches WindowConfig::Simple(c) && c@ == s@,
        YamlNode::Mapping(entries) => entries@.len() == 1 && (match entries@[0].0 {
            YamlNode::Str(k) => match entries@[0].1 {
                YamlNode::Str(v) => w matches WindowConfig::Complex { name, command } && name@ == k@
                    && command@ == v@,
                m => w matches WindowConfig::WithLayout { name, layout } && name@ == k@
                    && layout_matches(m, layout),
            },
            _ => false,
        }),
        _ => false,
    }
}

/// Whether every item of a sequence has a window shape.
pub open spec fn windows_ok(items: Seq<YamlNode>) -> bool {
    forall|i: int| 0 <= i < items.len() ==> window_ok(items[i])
}

/// Whether a window list is the classification of a sequence, item by item.
pub open spec fn windows_match(items: Seq<YamlNode>, ws: Seq<WindowConfig>) -> bool {
    ws.len() == items.len() && forall|i: int| 0 <= i < items.len() ==> window_matches(
        items[i],
        ws[i],
    )
}

/// Whether a node has the session-configuration shape: a mapping with a
/// string `name`, an optional string `root`, and a `windows` sequence of
/// window shapes.
pub open spec fn config_ok(node: YamlNode) -> bool {
    match node {
        YamlNode::Mapping(entries) => {
            &&& match spec_find(entries@, "name"@) {
                Some(YamlNode::Str(_)) => true,
                _ => false,
            }
            &&& match spec_find(entries@, "root"@) {
                None => true,
                Some(x) => x is Str,
            }
            &&& match spec_find(entries@, "windows"@) {
                Some(YamlNode::List(items)) => windows_ok(items@),
                _ => false,
            }
        },
        _ => false,
    }
}

/// Whether a configuration is the classification of a node.
pub open spec fn config_matches(node: YamlNode, c: Config) -> bool {
    match node {
        YamlNode::Mapping(entries) => {
            &&& match spec_find(entries@, "name"@) {
                Some(YamlNode::Str(s)) => c.name@ == s@,
                _ => false,
            }
            &&& match spec_find(entries@, "root"@) {
                None => c.root is None,
                Some(YamlNode::Str(s)) => c.root matches Some(r) && r@ == s@,
                Some(_) => false,
            }
            &&& match spec_find(entries@, "windows"@) {
                Some(YamlNode::List(items)) => windows_match(items@, c.windows@),
                _ => false,
            }
        },
        _ => false,
    }
}

/// The characters after the last separator.
pub open spec fn tail_component(s: Seq<char>) -> Seq<char>
    decreases s.len(),
{
    if s.len() == 0 {
        Seq::empty()
    } else if s.last() == '/' {
        Seq::empty()
    } else {
        tail_component(s.drop_last()).push(s.last())
    }
}

/// The base name of a path string, as the final path component is read:
/// trailing separators are ignored, a trailing `.` component is transparent,
/// and a path that ends in a `..` component — like one with no component at
/// all — has no base name.
pub open spec fn spec_basename(s: Seq<char>) -> Option<Seq<char>>
    decreases s.len(),
{
    if s.len() == 0 {
        None
    } else if s.last() == '/' {
        spec_basename(s.drop_last())
    } else {
        let c = tail_component(s);
        if c == seq!['.'] {
            spec_basename(s.drop_last())
        } else if c == seq!['.', '.'] {
            None
        } else {
            Some(c)
        }
    }
}

proof fn lemma_tail_at(s: Seq<char>, start: int)
    requires
        0 <= start <= s.len(),
        forall|j: int| start <= j < s.len() ==> s[j] != '/',
        start > 0 ==> s[start - 1] == '/',
    ensures
        tail_component(s) == s.skip(start),
    decreases s.len(),
{
    if s.len() == 0 {
        assert(s.skip(start) =~= Seq::<char>::empty());
    } else if s.last() == '/' {
        assert(start == s.len());
        assert(s.skip(start) =~= Seq::<char>::empty());
    } else {
        assert(start < s.len());
        lemma_tail_at(s.drop_last(), start);
        assert(s.drop_last().skip(start).push(s.last()) =~= s.skip(start));
    }
}

/// The index where the final component of `path[..end]` begins: the
/// position right after the last separator before `end`.
#[verifier::loop_isolation(false)]
fn component_start(path: &str, end: usize) -> (start: usize)
    requires
        end <= path@.len(),
    ensures
        start <= end,
        forall|j: int| start <= j < end ==> path@[j] != '/',
        start > 0 ==> path@[start - 1] == '/',
{
    let mut start: usize = end;
    while start > 0 && path.get_char(start - 1) != '/'
        invariant
            start <= end,
            end <= path@.len(),
            forall|j: int| start <= j < end ==> path@[j] != '/',
        decreases start,
    {
        start = start - 1;
    }
    start
}

impl Config {
    /// Detects the session name from a directory path: the path's base name,
    /// with trailing separators ignored and a trailing `.` component skipped.
    /// A path with no determinable name — empty, separators only, or ending
    /// in a `..` component — is rejected.
    #[verifier::loop_isolation(false)]
    pub fn detect_session_name(path: &str) -> (r: Result<String, TmuxrsError>)
        ensures
            match r {
                Ok(name) => spec_basename(path@) matches Some(b) && name@ == b,
                Err(e) => spec_basename(path@) is None && (e
                    matches TmuxrsError::ConfigNotFound(m) && m@
                    == "Could not determine directory name"@),
            },
    {
        let len = path.unicode_len();
        let mut end: usize = len;
        let mut done = false;
        proof {
            assert(path@.take(len as int) =~= path@);
        }
        while !done
            invariant
                end <= len,
                len == path@.len(),
                spec_basename(path@) == spec_basename(path@.take(end as int)),
                done ==> end == 0 || (path@[end as int - 1] != '/' && tail_component(
                    path@.take(end as int),
                ) != seq!['.']),
            decreases
                    end,
                    (if done {
                        0int
                    } else {
                        1int
                    }),
        {
            let ghost end_at_entry = end;
            while end > 0 && path.get_char(end - 1) == '/'
                invariant
                    end <= end_at_entry,
                    end <= len,
                    spec_basename(path@) == spec_basename(path@.take(end as int)),
                decreases end,
            {
                proof {
                    let t = path@.take(end as int);
                    assert(t.last() == path@[end as int - 1]);
                    assert(t.drop_last() =~= path@.take(end as int - 1));
                }
                end = end - 1;
            }
            if end == 0 {
                done = true;
            } else {
                let start = component_start(path, end);
                if end - start == 1 && path.get_char(start) == '.' {
                    proof {
                        let t = path@.take(end as int);
                        lemma_tail_at(t, start as int);
                        assert(t.skip(start as int).len() == 1);
                        assert(t.skip(start as int)[0] == path@[start as int]);
                        assert(t.skip(start as int) =~= seq!['.']);
                        assert(tail_component(t) == seq!['.']);
                        assert(t.last() == path@[end as int - 1]);
                        assert(t.drop_last() =~= path@.take(end as int - 1));
                    }
                    end = end - 1;
                } else {
                    proof {
                        let t = path@.take(end as int);
                        lemma_tail_at(t, start as int);
                        assert(tail_component(t) =~= t.subrange(start as int, end as int));
                        if tail_component(t) == seq!['.'] {
                            assert(t.subrange(start as int, end as int) == seq!['.']);
                            assert(seq!['.'].len() == 1);
                            assert(t.subrange(start as int, end as int).len() == end - start);
                            assert(end - start == 1);
                            assert(seq!['.'][0] == '.');
                            assert(t.subrange(start as int, end as int)[0] == t[start as int]);
                            assert(path@[start as int] == '.');
                        }
                    }
                    done = true;
                }
            }
        }
        if end == 0 {
            proof {
                assert(path@.take(0int) =~= Seq::<char>::empty());
            }
            return Err(
                TmuxrsError::ConfigNotFound(
                    String::from_str("Could not determine directory name"),
                ),
            );
        }
        let start = component_start(path, end);
        proof {
            let t = path@.take(end as int);
            lemma_tail_at(t, start as int);
            assert(tail_component(t) =~= t.subrange(start as int, end as int));
            assert(t.subrange(start as int, end as int) =~= path@.subrange(
                start as int,
                end as int,
            ));
            assert(start < end);
        }
        if end - start == 2 && path.get_char(start) == '.' && path.get_char(start + 1) == '.' {
            proof {
                assert(tail_component(path@.take(end as int)) =~= seq!['.', '.']);
            }
            Err(TmuxrsError::ConfigNotFound(String::from_str("Could not determine directory name")))
        } else {
            proof {
                let c = tail_component(path@.take(end as int));
                if c == seq!['.', '.'] {
                    assert(end - start == 2 && path@[start as int] == '.' && path@[start as int
                        + 1] == '.');
                }
            }
            let name = path.substring_char(start, end);
            Ok(name.to_owned())
        }
    }

    /// Where the configuration for a session is looked up:
    /// `<home>/.config/tmuxrs/<name>.yml` under the user's home directory.
    pub fn get_config_file_path(session_name: &str) -> (r: Result<String, TmuxrsError>)
        ensures
            match r {
                Ok(p) => exists|home: Seq<char>|
                    p@ == home + "/.config/tmuxrs/"@ + session_name@ + ".yml"@,
                Err(e) => e matches TmuxrsError::ConfigNotFound(m) && m@
                    == "Could not find home directory"@,
            },
    {
        match home_dir() {
            Some(home) => {
                let ghost h = home@;
                let p = home.concat("/.config/tmuxrs/").concat(session_name).concat(".yml");
                proof {
                    assert(p@ == h + "/.config/tmuxrs/"@ + session_name@ + ".yml"@);
                }
                Ok(p)
            },
            None => Err(
                TmuxrsError::ConfigNotFound(String::from_str("Could not find home directory")),
            ),
        }
    }

    /// Parses a whole session-configuration document from YAML text.  The
    /// YAML reading itself is the parser's; everything it yields passes
    /// through the verified classifier.  Success comes exactly when the text
    /// parses to a tree of the session-configuration shape, and the result is
    /// that tree's classification.
    pub fn parse_str(text: &str) -> (r: Result<Config, TmuxrsError>)
        ensures
            match r {
                Ok(c) => yaml_tree_of(text@) matches Some(n) && config_ok(n) && config_matches(
                    n,
                    c,
                ),
                Err(e) => e is YamlError && (match yaml_tree_of(text@) {
                    Some(n) => !config_ok(n),
                    None => true,
                }),
            },
    {
        match parse_yaml_node(text) {
            Ok(node) => classify_config(&node),
            Err(msg) => Err(TmuxrsError::YamlError(msg)),
        }
    }
}

impl WindowLayout {
    /// Parses one window-layout fragment from YAML text, through the same
    /// verified classifier as a whole document.  Success comes exactly when
    /// the text parses to a tree of the window-layout shape, and the result
    /// is that tree's classification.
    pub fn parse_str(text: &str) -> (r: Result<WindowLayout, TmuxrsError>)
        ensures
            match r {
                Ok(w) => yaml_tree_of(text@) matches Some(n) && layout_ok(n) && layout_matches(
                    n,
                    w,
                ),
                Err(e) => e is YamlError && (match yaml_tree_of(text@) {
                    Some(n) => !layout_ok(n),
                    None => true,
                }),
            },
    {
        match parse_yaml_node(text) {
            Ok(node) => classify_window_layout(&node),
            Err(msg) => Err(TmuxrsError::YamlError(msg)),
        }
    }
}

#[verifier::external_type_specification]
#[verifier::external_body]
pub struct ExYamlValue(serde_yaml::Value);

/// Relies on the shape of serde_yaml::Value: mirrors the parsed tree as the
/// library's node type, one arm per variant; mapping entries keep their
/// document order.
#[verifier::external_body]
fn yaml_value_to_node(v: &serde_yaml::Value) -> YamlNode {
    match v {
        serde_yaml::Value::Null => YamlNode::Null,
        serde_yaml::Value::Bool(_) => YamlNode::Other,
        serde_yaml::Value::Number(_) => YamlNode::Other,
        serde_yaml::Value::String(s) => YamlNode::Str(s.clone()),
        serde_yaml::Value::Sequence(items) => YamlNode::List(
            items.iter().map(yaml_value_to_node).collect(),
        ),
        serde_yaml::Value::Mapping(m) => YamlNode::Mapping(
            m.iter().map(|(k, v)| (yaml_value_to_node(k), yaml_value_to_node(v))).collect(),
        ),
        serde_yaml::Value::Tagged(_) => YamlNode::Other,
    }
}

/// What parsing a YAML text yields: its document tree as the library's node
/// type, or nothing when the text is not well-formed YAML.  The parse is a
/// function of the text alone.
pub uninterp spec fn yaml_tree_of(text: Seq<char>) -> Option<YamlNode>;

/// Relies on serde_yaml::from_str: parses YAML text into its value tree.
/// The tree is handed on as the library's node type, a failure as the
/// parser's report.
#[verifier::external_body]
fn parse_yaml_node(text: &str) -> (r: Result<YamlNode, String>)
    ensures
        match r {
            Ok(n) => yaml_tree_of(text@) == Some(n),
            Err(_) => yaml_tree_of(text@) is None,
        },
{
    match serde_yaml::from_str::<serde_yaml::Value>(text) {
        Ok(v) => Ok(yaml_value_to_node(&v)),
        Err(e) => Err(e.to_string()),
    }
}

/// Relies on dirs::home_dir: the user's home directory as the system reports
/// it, if any; the result depends on the environment.
#[verifier::external_body]
fn home_dir() -> (r: Option<String>) {
    dirs::home_dir().map(|p| p.to_string_lossy().into_owned())
}

/// Whether a file name carries the `yml` or `yaml` extension — the files a
/// configuration listing reads.  A bare dot-file such as `.yml` has no
/// extension and does not count.
pub open spec fn spec_has_yaml_extension(s: Seq<char>) -> bool {
    ||| (s.len() > 4 && s.skip(s.len() - 4) == ".yml"@)
    ||| (s.len() > 5 && s.skip(s.len() - 5) == ".yaml"@)
}

/// Decides whether a file name is a configuration file by its extension.
pub fn has_yaml_extension(file_name: &str) -> (r: bool)
    ensures
        r == spec_has_yaml_extension(file_name@),
{
    let len = file_name.unicode_len();
    if len > 4 {
        let tail = file_name.substring_char(len - 4, len);
        proof {
            assert(tail@ =~= file_name@.skip(file_name@.len() - 4));
        }
        if str_eq(tail, ".yml") {
            return true;
        }
    }
    if len > 5 {
        let tail = file_name.substring_char(len - 5, len);
        proof {
            assert(tail@ =~= file_name@.skip(file_name@.len() - 5));
        }
        if str_eq(tail, ".yaml") {
            return true;
        }
    }
    false
}

fn pane_mismatch() -> (e: TmuxrsError)
    ensures
        e matches TmuxrsError::YamlError(m) && m@
            == "data did not match any variant of untagged enum PaneConfig"@,
{
    TmuxrsError::YamlError(
        String::from_str("data did not match any variant of untagged enum PaneConfig"),
    )
}

fn window_mismatch() -> (e: TmuxrsError)
    ensures
        e matches TmuxrsError::YamlError(m) && m@
            == "data did not match any variant of untagged enum WindowConfig"@,
{
    TmuxrsError::YamlError(
        String::from_str("data did not match any variant of untagged enum WindowConfig"),
    )
}

fn config_mismatch() -> (e: TmuxrsError)
    ensures
        e matches TmuxrsError::YamlError(m) && m@
            == "data did not match the session configuration shape"@,
{
    TmuxrsError::YamlError(String::from_str("data did not match the session configuration shape"))
}

/// Looks up the first entry of a mapping under a string key.
fn find_entry<'a>(entries: &'a Vec<(YamlNode, YamlNode)>, key: &str) -> (r: Option<&'a YamlNode>)
    ensures
        match r {
            Some(v) => spec_find(entries@, key@) == Some(*v),
            None => spec_find(entries@, key@) is None,
        },
{
    proof {
        assert(entries@.skip(0) =~= entries@);
    }
    let mut i: usize = 0;
    while i < entries.len()
        invariant
            i <= entries.len(),
            spec_find(entries@, key@) == spec_find(entries@.skip(i as int), key@),
        decreases entries.len() - i,
    {
        let e = &entries[i];
        proof {
            assert(entries@.skip(i as int)[0] == entries@[i as int]);
            assert(entries@.skip(i as int).drop_first() =~= entries@.skip(i as int + 1));
        }
        let matched = match &e.0 {
            YamlNode::Str(k) => str_eq(k.as_str(), key),
            _ => false,
        };
        if matched {
            return Some(&e.1);
        }
        i = i + 1;
    }
    proof {
        assert(entries@.skip(entries@.len() as int) =~= Seq::<(YamlNode, YamlNode)>::empty());
    }
    None
}

fn pane_value(v: &YamlNode) -> (r: PaneCommands)
    ensures
        pane_value_matches(*v, r),
{
    match v {
        YamlNode::Str(s) => PaneCommands::One(s.clone()),
        YamlNode::List(items) => {
            let mut cs: Vec<String> = Vec::new();
            let mut i: usize = 0;
            while i < items.len()
                invariant
                    i <= items.len(),
                    cs.deep_view() == str_items(items@.take(i as int)),
                decreases items.len() - i,
            {
                proof {
                    assert(items@.take(i as int + 1).drop_last() =~= items@.take(i as int));
                    assert(items@.take(i as int + 1).last() == items@[i as int]);
                }
                match &items[i] {
                    YamlNode::Str(s) => {
                        cs.push(s.clone());
                        proof {
                            assert(cs.deep_view() =~= str_items(items@.take(i as int + 1)));
                        }
                    },
                    _ => {
                        proof {
                            assert(cs.deep_view() =~= str_items(items@.take(i as int + 1)));
                        }
                    },
                }
                i = i + 1;
            }
            proof {
                assert(items@.take(items@.len() as int) =~= items@);
            }
            PaneCommands::Many(cs)
        },
        _ => PaneCommands::Other,
    }
}

/// Classifies one pane node by its structural shape, in the fixed priority
/// the grammar sets: null, scalar, all-string sequence, then a mapping that
/// is empty or single-entry with a string key.
#[verifier::loop_isolation(false)]
pub fn classify_pane(node: &YamlNode) -> (r: Result<PaneConfig, TmuxrsError>)
    ensures
        match r {
            Ok(p) => pane_ok(*node) && pane_matches(*node, p),
            Err(e) => !pane_ok(*node) && (e matches TmuxrsError::YamlError(m) && m@
                == "data did not match any variant of untagged enum PaneConfig"@),
        },
{
    match node {
        YamlNode::Null => Ok(PaneConfig::Null),
        YamlNode::Str(s) => Ok(PaneConfig::Simple(s.clone())),
        YamlNode::List(items) => {
            let mut cs: Vec<String> = Vec::new();
            let mut i: usize = 0;
            while i < items.len()
                invariant
                    i <= items.len(),
                    cs@.len() == i,
                    forall|j: int| 0 <= j < i ==> items@[j] is Str,
                    forall|j: int| 0 <= j < i ==> cs@[j]@ == str_values(items@)[j],
                decreases items.len() - i,
            {
                match &items[i] {
                    YamlNode::Str(s) => {
                        cs.push(s.clone());
                    },
                    _ => {
                        return Err(pane_mismatch());
                    },
                }
                i = i + 1;
            }
            proof {
                assert(all_str(items@));
                assert(cs.deep_view() =~= str_values(items@));
            }
            Ok(PaneConfig::Multiple(cs))
        },
        YamlNode::Mapping(entries) => {
            if entries.len() == 0 {
                Ok(PaneConfig::Null)
            } else if entries.len() == 1 {
                let e = &entries[0];
                match &e.0 {
                    YamlNode::Str(k) => {
                        let value = pane_value(&e.1);
                        Ok(PaneConfig::Named { name: k.clone(), value })
                    },
                    _ => Err(pane_mismatch()),
                }
            } else {
                Err(pane_mismatch())
            }
        },
        YamlNode::Other => Err(pane_mismatch()),
    }
}

/// Classifies a window-layout node: a mapping with an optional string
/// `layout` and a required `panes` sequence, each pane classified in order.
#[verifier::loop_isolation(false)]
pub fn classify_window_layout(node: &YamlNode) -> (r: Result<WindowLayout, TmuxrsError>)
    ensures
        match r {
            Ok(w) => layout_ok(*node) && layout_matches(*node, w),
            Err(e) => !layout_ok(*node) && e is YamlError,
        },
{
    match node {
        YamlNode::Mapping(entries) => {
            let layout: Option<String> = match find_entry(entries, "layout") {
                None => None,
                Some(YamlNode::Str(s)) => Some(s.clone()),
                Some(_) => {
                    return Err(window_mismatch());
                },
            };
            let items = match find_entry(entries, "panes") {
                Some(YamlNode::List(items)) => items,
                _ => {
                    return Err(window_mismatch());
                },
            };
            let mut ps: Vec<PaneConfig> = Vec::new();
            let mut i: usize = 0;
            while i < items.len()
                invariant
                    i <= items.len(),
                    panes_ok(items@.take(i as int)),
                    panes_match(items@.take(i as int), ps@),
                    spec_find(entries@, "panes"@) == Some(YamlNode::List(*items)),
                decreases items.len() - i,
            {
                match classify_pane(&items[i]) {
                    Ok(p) => {
                        ps.push(p);
                    },
                    Err(e) => {
                        proof {
                            assert(!pane_ok(items@[i as int]));
                            assert(!panes_ok(items@));
                        }
                        return Err(e);
                    },
                }
                i = i + 1;
            }
            proof {
                assert(items@.take(items@.len() as int) =~= items@);
            }
            Ok(WindowLayout { layout, panes: ps })
        },
        _ => Err(window_mismatch()),
    }
}

/// Classifies one window node by its structural shape: a scalar command, or
/// a single-entry mapping whose value is a scalar command or a layout.
pub fn classify_window(node: &YamlNode) -> (r: Result<WindowConfig, TmuxrsError>)
    ensures
        match r {
            Ok(w) => window_ok(*node) && window_matches(*node, w),
            Err(e) => !window_ok(*node) && e is YamlError,
        },
{
    match node {
        YamlNode::Str(s) => Ok(WindowConfig::Simple(s.clone())),
        YamlNode::Mapping(entries) => {
            if entries.len() != 1 {
                return Err(window_mismatch());
            }
            let e = &entries[0];
            let name = match &e.0 {
                YamlNode::Str(k) => k.clone(),
                _ => {
                    return Err(window_mismatch());
                },
            };
            match &e.1 {
                YamlNode::Str(v) => Ok(WindowConfig::Complex { name, command: v.clone() }),
                other => {
                    match classify_window_layout(other) {
                        Ok(layout) => Ok(WindowConfig::WithLayout { name, layout }),
                        Err(e2) => Err(e2),
                    }
                },
            }
        },
        _ => Err(window_mismatch()),
    }
}

/// Classifies a whole session-configuration document: a mapping with a
/// string `name`, an optional string `root`, and a `windows` sequence of
/// window shapes, classified in document order.
#[verifier::loop_isolation(false)]
pub fn classify_config(node: &YamlNode) -> (r: Result<Config, TmuxrsError>)
    ensures
        match r {
            Ok(c) => config_ok(*node) && config_matches(*node, c),
            Err(e) => !config_ok(*node) && e is YamlError,
        },
{
    match node {
        YamlNode::Mapping(entries) => {
            let name = match find_entry(entries, "name") {
                Some(YamlNode::Str(s)) => s.clone(),
                _ => {
                    return Err(config_mismatch());
                },
            };
            let root: Option<String> = match find_entry(entries, "root") {
                None => None,
                Some(YamlNode::Str(s)) => Some(s.clone()),
                Some(_) => {
                    return Err(config_mismatch());
                },
            };
            let items = match find_entry(entries, "windows") {
                Some(YamlNode::List(items)) => items,
                _ => {
                    return Err(config_mismatch());
                },
            };
            let mut ws: Vec<WindowConfig> = Vec::new();
            let mut i: usize = 0;
            while i < items.len()
                invariant
                    i <= items.len(),
                    windows_ok(items@.take(i as int)),
                    windows_match(items@.take(i as int), ws@),
                    spec_find(entries@, "windows"@) == Some(YamlNode::List(*items)),
                decreases items.len() - i,
            {
                match classify_window(&items[i]) {
                    Ok(w) => {
                        ws.push(w);
                    },
                    Err(e) => {
                        proof {
                            assert(!window_ok(items@[i as int]));
                            assert(!windows_ok(items@));
                        }
                        return Err(e);
                    },
                }
                i = i + 1;
            }
            proof {
                assert(items@.take(items@.len() as int) =~= items@);
            }
            Ok(Config { name, root, windows: ws })
        },
        _ => Err(config_mismatch()),
    }
}

fn empty_strings() -> (r: Vec<String>)
    ensures
        r.deep_view() == Seq::<Seq<char>>::empty(),
{
    let r: Vec<String> = Vec::new();
    proof {
        assert(r.deep_view() =~= Seq::<Seq<char>>::empty());
    }
    r
}

fn one_or_empty(cmd: &String) -> (r: Vec<String>)
    ensures
        r.deep_view() == (if blank(cmd@) {
            Seq::<Seq<char>>::empty()
        } else {
            seq![cmd@]
        }),
{
    if is_blank(cmd.as_str()) {
        empty_strings()
    } else {
        let mut r: Vec<String> = Vec::new();
        r.push(cmd.clone());
        proof {
            assert(r.deep_view() =~= seq![cmd@]);
        }
        r
    }
}

fn clone_strings(v: &Vec<String>) -> (r: Vec<String>)
    ensures
        r.deep_view() == v.deep_view(),
{
    let mut r: Vec<String> = Vec::new();
    let mut i: usize = 0;
    while i < v.len()
        invariant
            i <= v.len(),
            r@.len() == i,
            forall|j: int| 0 <= j < i ==> r@[j]@ == v@[j]@,
        decreases v.len() - i,
    {
        let s = v[i].clone();
        r.push(s);
        i = i + 1;
    }
    proof {
        assert(r.deep_view() =~= v.deep_view());
    }
    r
}

} // verus!
