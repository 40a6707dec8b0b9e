//! The user's settings document and its dotted-key access.
use vstd::prelude::*;
use crate::text::{eq_ascii_case, eq_ignore_ascii_case, lemma_split_dots_nonempty, push_str, split_dots, split_on_dots, str_eq, strs};

verus! {

/// The settings document.
#[derive(Debug, Clone, Copy, PartialEq, Eq, Structural)]
pub struct Root {
    pub engine: Engine,
    pub logs: Logs,
    pub experimental: Experimental,
}

/// The container engine.
#[derive(Debug, Clone, Copy, PartialEq, Eq, Structural)]
pub enum Engine {
    Docker,
    Podman,
}

/// Logging settings.
#[derive(Debug, Clone, Copy, PartialEq, Eq, Structural)]
pub struct Logs {
    pub enabled: bool,
    pub level: Level,
    pub strategy: Strategy,
}

/// Log verbosity.
#[derive(Debug, Clone, Copy, PartialEq, Eq, Structural)]
pub enum Level {
    Trace,
    Debug,
    Info,
    Warn,
    Error,
}

/// Whether the log file is truncated or appended to.
#[derive(Debug, Clone, Copy, PartialEq, Eq, Structural)]
pub enum Strategy {
    Truncate,
    Append,
}

/// Capture policy: whether the child's stdout and stderr are read and
/// logged instead of passed through.
#[derive(Debug, Clone, Copy, PartialEq, Eq, Structural)]
pub struct Experimental {
    pub capture_stdout: bool,
    pub capture_stderr: bool,
}

/// Verbosity threshold of the logger.
#[derive(Debug, Clone, Copy, PartialEq, Eq, Structural)]
pub enum LevelFilter {
    Off,
    Error,
    Warn,
    Info,
    Debug,
    Trace,
}

/// The settings used when none are stored.
pub open spec fn default_root() -> Root {
    Root {
        engine: Engine::Docker,
        logs: Logs { enabled: false, level: Level::Info, strategy: Strategy::Append },
        experimental: Experimental { capture_stdout: false, capture_stderr: false },
    }
}

impl Default for Root {
    fn default() -> (r: Self)
        ensures
            r == default_root(),
    {
        Root { engine: Engine::default(), logs: Logs::default(), experimental: Experimental::default() }
    }
}

impl Default for Engine {
    fn default() -> (r: Self)
        ensures
            r == Engine::Docker,
    {
        Engine::Docker
    }
}

impl Default for Logs {
    fn default() -> (r: Self)
        ensures
            r == default_root().logs,
    {
        Logs { enabled: false, level: Level::Info, strategy: Strategy::Append }
    }
}

impl Default for Experimental {
    fn default() -> (r: Self)
        ensures
            r == default_root().experimental,
    {
        Experimental { capture_stdout: false, capture_stderr: false }
    }
}

/// The name of an engine.
pub open spec fn engine_name(e: Engine) -> Seq<char> {
    match e {
        Engine::Docker => "docker"@,
        Engine::Podman => "podman"@,
    }
}

/// The name of a level.
pub open spec fn level_name(l: Level) -> Seq<char> {
    match l {
        Level::Trace => "trace"@,
        Level::Debug => "debug"@,
        Level::Info => "info"@,
        Level::Warn => "warn"@,
        Level::Error => "error"@,
    }
}

/// The name of a strategy.
pub open spec fn strategy_name(s: Strategy) -> Seq<char> {
    match s {
        Strategy::Truncate => "truncate"@,
        Strategy::Append => "append"@,
    }
}

impl Engine {
    /// The engine's executable name.
    pub fn as_str(&self) -> (r: &'static str)
        ensures
            r@ == engine_name(*self),
    {
        match self {
            Self::Docker => "docker",
            Self::Podman => "podman",
        }
    }

    /// The engine a name denotes, exactly as `as_str` spells it.
    pub fn from_name(s: &str) -> (r: Option<Engine>)
        ensures
            r matches Some(e) ==> engine_name(e) == s@,
            r is None ==> (s@ != engine_name(Engine::Docker) && s@ != engine_name(Engine::Podman)),
    {
        if str_eq(s, "docker") {
            Some(Engine::Docker)
        } else if str_eq(s, "podman") {
            Some(Engine::Podman)
        } else {
            None
        }
    }
}

impl Level {
    /// The logger threshold of this level. `Error` logs at `Info`, as the
    /// logger never hides warnings and informational lines.
    pub fn to_level_filter(&self) -> (r: LevelFilter)
        ensures
            r == match *self {
                Level::Info => LevelFilter::Info,
                Level::Warn => LevelFilter::Warn,
                Level::Debug => LevelFilter::Debug,
                Level::Trace => LevelFilter::Trace,
                Level::Error => LevelFilter::Info,
            },
    {
        match self {
            Level::Info => LevelFilter::Info,
            Level::Warn => LevelFilter::Warn,
            Level::Debug => LevelFilter::Debug,
            Level::Trace => LevelFilter::Trace,
            _ => LevelFilter::Info,
        }
    }

    /// The level a name denotes.
    pub fn from_name(s: &str) -> (r: Option<Level>)
        ensures
            r matches Some(l) ==> level_name(l) == s@,
            r is None ==> forall|l: Level| level_name(l) != s@,
    {
        if str_eq(s, "trace") {
            Some(Level::Trace)
        } else if str_eq(s, "debug") {
            Some(Level::Debug)
        } else if str_eq(s, "info") {
            Some(Level::Info)
        } else if str_eq(s, "warn") {
            Some(Level::Warn)
        } else if str_eq(s, "error") {
            Some(Level::Error)
        } else {
            None
        }
    }
}

impl Strategy {
    /// The strategy a name denotes.
    pub fn from_name(s: &str) -> (r: Option<Strategy>)
        ensures
            r matches Some(t) ==> strategy_name(t) == s@,
            r is None ==> forall|t: Strategy| strategy_name(t) != s@,
    {
        if str_eq(s, "truncate") {
            Some(Strategy::Truncate)
        } else if str_eq(s, "append") {
            Some(Strategy::Append)
        } else {
            None
        }
    }
}

/// A place in the settings document: the root, a section or a value.
#[derive(Debug, Clone, Copy, PartialEq, Eq, Structural)]
pub enum Node {
    Root,
    Engine,
    Logs,
    LogsEnabled,
    LogsLevel,
    LogsStrategy,
    Experimental,
    CaptureStdout,
    CaptureStderr,
}

/// The entry called `key` under `node`; values have no entries.
pub open spec fn child(node: Node, key: Seq<char>) -> Option<Node> {
    match node {
        Node::Root => if key == "engine"@ {
            Some(Node::Engine)
        } else if key == "logs"@ {
            Some(Node::Logs)
        } else if key == "experimental"@ {
            Some(Node::Experimental)
        } else {
            None
        },
        Node::Logs => if key == "enabled"@ {
            Some(Node::LogsEnabled)
        } else if key == "level"@ {
            Some(Node::LogsLevel)
        } else if key == "strategy"@ {
            Some(Node::LogsStrategy)
        } else {
            None
        },
        Node::Experimental => if key == "capture_stdout"@ {
            Some(Node::CaptureStdout)
        } else if key == "capture_stderr"@ {
            Some(Node::CaptureStderr)
        } else {
            None
        },
        _ => None,
    }
}

/// Whether `node` holds entries.
pub open spec fn is_section(node: Node) -> bool {
    node == Node::Root || node == Node::Logs || node == Node::Experimental
}

/// The node reached from the root by following `keys`.
pub open spec fn walk(keys: Seq<Seq<char>>) -> Option<Node>
    decreases keys.len(),
{
    if keys.len() == 0 {
        Some(Node::Root)
    } else {
        match walk(keys.drop_last()) {
            Some(n) => child(n, keys.last()),
            None => None,
        }
    }
}

/// Why a settings key could not be read or written.
#[derive(Debug, Clone, Copy, PartialEq, Eq, Structural)]
pub enum SettingError {
    /// A section on the way to the key does not exist.
    InvalidPath,
    /// The last part of the key names no entry.
    InvalidKey,
    /// The value does not fit the entry.
    InvalidValue,
}

/// `true` or `false`.
pub open spec fn bool_text(b: bool) -> Seq<char> {
    if b {
        "true"@
    } else {
        "false"@
    }
}

/// `s` in double quotes.
pub open spec fn quoted(s: Seq<char>) -> Seq<char> {
    "\""@ + s + "\""@
}

/// How a value or section is shown: values as JSON scalars, sections as
/// JSON objects indented by two spaces, keys in alphabetical order.
pub open spec fn render(root: Root, node: Node) -> Seq<char> {
    match node {
        Node::Engine => quoted(engine_name(root.engine)),
        Node::LogsEnabled => bool_text(root.logs.enabled),
        Node::LogsLevel => quoted(level_name(root.logs.level)),
        Node::LogsStrategy => quoted(strategy_name(root.logs.strategy)),
        Node::CaptureStdout => bool_text(root.experimental.capture_stdout),
        Node::CaptureStderr => bool_text(root.experimental.capture_stderr),
        Node::Logs => "{\n  \"enabled\": "@ + bool_text(root.logs.enabled) + ",\n  \"level\": "@
            + quoted(level_name(root.logs.level)) + ",\n  \"strategy\": "@ + quoted(
            strategy_name(root.logs.strategy),
        ) + "\n}"@,
        Node::Experimental => "{\n  \"capture_stderr\": "@ + bool_text(
            root.experimental.capture_stderr,
        ) + ",\n  \"capture_stdout\": "@ + bool_text(root.experimental.capture_stdout) + "\n}"@,
        Node::Root => Seq::empty(),
    }
}

/// The boolean `value` spells exactly.
pub open spec fn bool_value(value: Seq<char>) -> Option<bool> {
    if value == "true"@ {
        Some(true)
    } else if value == "false"@ {
        Some(false)
    } else {
        None
    }
}

/// `root` with the value at `node` set from the text `value`; `None` when
/// the text does not fit (a section takes no text).
pub open spec fn assigned(root: Root, node: Node, value: Seq<char>) -> Option<Root> {
    match node {
        Node::Engine => if value == engine_name(Engine::Docker) {
            Some(Root { engine: Engine::Docker, ..root })
        } else if value == engine_name(Engine::Podman) {
            Some(Root { engine: Engine::Podman, ..root })
        } else {
            None
        },
        Node::LogsEnabled => match bool_value(value) {
            Some(b) => Some(Root { logs: Logs { enabled: b, ..root.logs }, ..root }),
            None => None,
        },
        Node::LogsLevel => if exists|l: Level| level_name(l) == value {
            Some(
                Root {
                    logs: Logs { level: choose|l: Level| level_name(l) == value, ..root.logs },
                    ..root
                },
            )
        } else {
            None
        },
        Node::LogsStrategy => if exists|t: Strategy| strategy_name(t) == value {
            Some(
                Root {
                    logs: Logs { strategy: choose|t: Strategy| strategy_name(t) == value, ..root.logs },
                    ..root
                },
            )
        } else {
            None
        },
        Node::CaptureStdout => match bool_value(value) {
            Some(b) => Some(
                Root { experimental: Experimental { capture_stdout: b, ..root.experimental }, ..root },
            ),
            None => None,
        },
        Node::CaptureStderr => match bool_value(value) {
            Some(b) => Some(
                Root { experimental: Experimental { capture_stderr: b, ..root.experimental }, ..root },
            ),
            None => None,
        },
        _ => None,
    }
}

/// What reading the dotted key `path` gives.
pub open spec fn read_outcome(root: Root, path: Seq<char>) -> Result<Seq<char>, SettingError> {
    let keys = split_dots(path);
    match walk(keys.drop_last()) {
        None => Err(SettingError::InvalidPath),
        Some(n) => match child(n, keys.last()) {
            None => Err(SettingError::InvalidKey),
            Some(t) => Ok(render(root, t)),
        },
    }
}

/// What writing `value` at the dotted key `path` gives. A value that spells
/// a boolean in other letter case is refused before the key is looked at.
pub open spec fn write_outcome(root: Root, path: Seq<char>, value: Seq<char>) -> Result<Root, SettingError> {
    let keys = split_dots(path);
    match walk(keys.drop_last()) {
        None => Err(SettingError::InvalidPath),
        Some(n) => if (eq_ascii_case(value, "true"@) || eq_ascii_case(value, "false"@))
            && bool_value(value) is None {
            Err(SettingError::InvalidValue)
        } else if !is_section(n) {
            Err(SettingError::InvalidPath)
        } else {
            match child(n, keys.last()) {
                None => Err(SettingError::InvalidKey),
                Some(t) => match assigned(root, t, value) {
                    Some(r) => Ok(r),
                    None => Err(SettingError::InvalidValue),
                },
            }
        },
    }
}

fn child_of(node: Node, key: &str) -> (r: Option<Node>)
    ensures
        r == child(node, key@),
{
    match node {
        Node::Root => if str_eq(key, "engine") {
            Some(Node::Engine)
        } else if str_eq(key, "logs") {
            Some(Node::Logs)
        } else if str_eq(key, "experimental") {
            Some(Node::Experimental)
        } else {
            None
        },
        Node::Logs => if str_eq(key, "enabled") {
            Some(Node::LogsEnabled)
        } else if str_eq(key, "level") {
            Some(Node::LogsLevel)
        } else if str_eq(key, "strategy") {
            Some(Node::LogsStrategy)
        } else {
            None
        },
        Node::Experimental => if str_eq(key, "capture_stdout") {
            Some(Node::CaptureStdout)
        } else if str_eq(key, "capture_stderr") {
            Some(Node::CaptureStderr)
        } else {
            None
        },
        _ => None,
    }
}

/// Follows all keys of `keys` but the last; there is at least one.
fn walk_to_parent(keys: &Vec<String>) -> (r: Option<Node>)
    requires
        keys@.len() >= 1,
    ensures
        r == walk(strs(keys@).drop_last()),
{
    let n = keys.len() - 1;
    let mut node = Node::Root;
    let mut i: usize = 0;
    while i < n
        invariant
            0 <= i <= n,
            n == keys@.len() - 1,
            walk(strs(keys@).subrange(0, i as int)) == Some(node),
        decreases n - i,
    {
        assert(strs(keys@).subrange(0, i + 1).drop_last() =~= strs(keys@).subrange(0, i as int));
        match child_of(node, keys[i].as_str()) {
            Some(next) => {
                node = next;
            },
            None => {
                proof {
                    assert(strs(keys@).drop_last().subrange(0, i + 1) =~= strs(keys@).subrange(
                        0,
                        i + 1,
                    ));
                    assert(strs(keys@).subrange(0, i + 1).last() == keys@[i as int]@);
                    lemma_walk_stuck(strs(keys@).drop_last(), i as int);
                }
                return None;
            },
        }
        i = i + 1;
    }
    assert(strs(keys@).subrange(0, n as int) =~= strs(keys@).drop_last());
    Some(node)
}

/// Once a walk is stuck it stays stuck.
proof fn lemma_walk_stuck(keys: Seq<Seq<char>>, i: int)
    requires
        0 <= i < keys.len(),
        walk(keys.subrange(0, i + 1)) is None,
    ensures
        walk(keys) is None,
    decreases keys.len(),
{
    if keys.len() > i + 1 {
        assert(keys.drop_last().subrange(0, i + 1) =~= keys.subrange(0, i + 1));
        lemma_walk_stuck(keys.drop_last(), i);
    } else {
        assert(keys.subrange(0, i + 1) =~= keys);
    }
}

fn push_bool(out: &mut String, b: bool)
    ensures
        final(out)@ == old(out)@ + bool_text(b),
{
    if b {
        push_str(out, "true");
    } else {
        push_str(out, "false");
    }
}

fn push_quoted(out: &mut String, s: &str)
    ensures
        final(out)@ == old(out)@ + quoted(s@),
{
    push_str(out, "\"");
    push_str(out, s);
    push_str(out, "\"");
}

impl Level {
    /// The level's name.
    pub fn as_str(&self) -> (r: &'static str)
        ensures
            r@ == level_name(*self),
    {
        match self {
            Level::Trace => "trace",
            Level::Debug => "debug",
            Level::Info => "info",
            Level::Warn => "warn",
            Level::Error => "error",
        }
    }
}

impl Strategy {
    /// The strategy's name.
    pub fn as_str(&self) -> (r: &'static str)
        ensures
            r@ == strategy_name(*self),
    {
        match self {
            Strategy::Truncate => "truncate",
            Strategy::Append => "append",
        }
    }
}

fn render_node(root: &Root, node: Node) -> (r: String)
    ensures
        r@ == render(*root, node),
{
    let mut r = String::new();
    match node {
        Node::Engine => push_quoted(&mut r, root.engine.as_str()),
        Node::LogsEnabled => push_bool(&mut r, root.logs.enabled),
        Node::LogsLevel => push_quoted(&mut r, root.logs.level.as_str()),
        Node::LogsStrategy => push_quoted(&mut r, root.logs.strategy.as_str()),
        Node::CaptureStdout => push_bool(&mut r, root.experimental.capture_stdout),
        Node::CaptureStderr => push_bool(&mut r, root.experimental.capture_stderr),
        Node::Logs => {
            push_str(&mut r, "{\n  \"enabled\": ");
            push_bool(&mut r, root.logs.enabled);
            push_str(&mut r, ",\n  \"level\": ");
            push_quoted(&mut r, root.logs.level.as_str());
            push_str(&mut r, ",\n  \"strategy\": ");
            push_quoted(&mut r, root.logs.strategy.as_str());
            push_str(&mut r, "\n}");
        },
        Node::Experimental => {
            push_str(&mut r, "{\n  \"capture_stderr\": ");
            push_bool(&mut r, root.experimental.capture_stderr);
            push_str(&mut r, ",\n  \"capture_stdout\": ");
            push_bool(&mut r, root.experimental.capture_stdout);
            push_str(&mut r, "\n}");
        },
        Node::Root => {},
    }
    r
}

fn parse_bool(value: &str) -> (r: Option<bool>)
    ensures
        r == bool_value(value@),
{
    if str_eq(value, "true") {
        Some(true)
    } else if str_eq(value, "false") {
        Some(false)
    } else {
        None
    }
}

fn assign_node(root: &Root, node: Node, value: &str) -> (r: Option<Root>)
    ensures
        r == assigned(*root, node, value@),
{
    proof {
        reveal_strlit("docker");
        reveal_strlit("podman");
        reveal_strlit("trace");
        reveal_strlit("debug");
        reveal_strlit("info");
        reveal_strlit("warn");
        reveal_strlit("error");
        reveal_strlit("truncate");
        reveal_strlit("append");
        assert(engine_name(Engine::Docker)[0] != engine_name(Engine::Podman)[0]);
        assert(forall|a: Level, b: Level| level_name(a)[0] == level_name(b)[0] ==> a == b);
        assert(forall|a: Strategy, b: Strategy| strategy_name(a)[0] == strategy_name(b)[0] ==> a == b);
    }
    match node {
        Node::Engine => match Engine::from_name(value) {
            Some(e) => Some(Root { engine: e, ..*root }),
            None => None,
        },
        Node::LogsEnabled => match parse_bool(value) {
            Some(b) => Some(Root { logs: Logs { enabled: b, ..root.logs }, ..*root }),
            None => None,
        },
        Node::LogsLevel => match Level::from_name(value) {
            Some(l) => {
                proof {
                    let c = choose|m: Level| level_name(m) == value@;
                    assert(level_name(c) == level_name(l));
                }
                Some(Root { logs: Logs { level: l, ..root.logs }, ..*root })
            },
            None => None,
        },
        Node::LogsStrategy => match Strategy::from_name(value) {
            Some(t) => {
                proof {
                    let c = choose|m: Strategy| strategy_name(m) == value@;
                    assert(strategy_name(c) == strategy_name(t));
                }
                Some(Root { logs: Logs { strategy: t, ..root.logs }, ..*root })
            },
            None => None,
        },
        Node::CaptureStdout => match parse_bool(value) {
            Some(b) => Some(
                Root { experimental: Experimental { capture_stdout: b, ..root.experimental }, ..*root },
            ),
            None => None,
        },
        Node::CaptureStderr => match parse_bool(value) {
            Some(b) => Some(
                Root { experimental: Experimental { capture_stderr: b, ..root.experimental }, ..*root },
            ),
            None => None,
        },
        _ => None,
    }
}

/// Access to the settings document by dotted keys such as `logs.level`.
pub struct UserConfig {}

impl UserConfig {
    /// The settings in use: those stored, else the defaults (which the
    /// caller then stores).
    pub fn load(stored: Option<Root>) -> (r: Root)
        ensures
            r == match stored {
                Some(s) => s,
                None => default_root(),
            },
    {
        match stored {
            Some(s) => s,
            None => Root::default(),
        }
    }

    /// The text of the value or section at `path`.
    pub fn read_config_value(root: &Root, path: &str) -> (r: Result<String, SettingError>)
        ensures
            match read_outcome(*root, path@) {
                Ok(t) => r matches Ok(s) && s@ == t,
                Err(e) => r == Err::<String, SettingError>(e),
            },
    {
        let keys = split_on_dots(path);
        proof {
            lemma_split_dots_nonempty(path@);
        }
        match walk_to_parent(&keys) {
            None => Err(SettingError::InvalidPath),
            Some(parent) => {
                let last = keys.len() - 1;
                assert(strs(keys@).last() == keys@[last as int]@);
                match child_of(parent, keys[last].as_str()) {
                    None => Err(SettingError::InvalidKey),
                    Some(node) => Ok(render_node(root, node)),
                }
            },
        }
    }

    /// Sets the value at `path` from the text `value`: `true` or `false`
    /// for switches, a name for the engine, level and strategy. On error
    /// the settings are left as they were.
    pub fn write_config_value(root: &mut Root, path: &str, value: &str) -> (r: Result<(), SettingError>)
        ensures
            match write_outcome(*old(root), path@, value@) {
                Ok(n) => r is Ok && *final(root) == n,
                Err(e) => r == Err::<(), SettingError>(e) && *final(root) == *old(root),
            },
    {
        let keys = split_on_dots(path);
        proof {
            lemma_split_dots_nonempty(path@);
        }
        match walk_to_parent(&keys) {
            None => Err(SettingError::InvalidPath),
            Some(parent) => {
                if (eq_ignore_ascii_case(value, "true") || eq_ignore_ascii_case(value, "false"))
                    && parse_bool(value).is_none() {
                    return Err(SettingError::InvalidValue);
                }
                if !(parent == Node::Root || parent == Node::Logs || parent == Node::Experimental) {
                    return Err(SettingError::InvalidPath);
                }
                let last = keys.len() - 1;
                assert(strs(keys@).last() == keys@[last as int]@);
                match child_of(parent, keys[last].as_str()) {
                    None => Err(SettingError::InvalidKey),
                    Some(node) => match assign_node(root, node, value) {
                        Some(updated) => {
                            *root = updated;
                            Ok(())
                        },
                        None => Err(SettingError::InvalidValue),
                    },
                }
            },
        }
    }
}

} // verus!
