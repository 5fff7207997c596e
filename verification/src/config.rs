//! Agent configuration: which agent servers exist and how to launch the
//! default one.
//!
//! The servers are kept as a table of `(name, server)` entries; a name is
//! looked up by its first entry, and [`insert_server`] keeps names unique.
use vstd::prelude::*;
use crate::text::{is_blank, owned, trim};

verus! {

/// The `[agent]` section of the editor configuration. A configuration is
/// well formed when its server names are unique ([`unique_names`]), as
/// [`insert_server`] keeps them; the fields are public, so this is a
/// precondition where it is needed rather than a type invariant.
#[derive(Debug)]
pub struct AgentConfig {
    pub enable: bool,
    pub default_agent: String,
    pub auto_context_on_open: bool,
    pub include_theme: bool,
    pub include_command_history: bool,
    pub include_visible_buffer: bool,
    pub include_diagnostics: bool,
    pub require_approval_for_shell: bool,
    pub servers: Vec<(String, AgentServerConfig)>,
}

/// How to start one agent server.
#[derive(Debug)]
pub struct AgentServerConfig {
    pub command: String,
    pub args: Vec<String>,
}

/// The resolved command line of the agent to start.
#[derive(Debug)]
pub struct AgentLaunchConfig {
    pub name: String,
    pub command: String,
    pub args: Vec<String>,
}

/// Why the default agent cannot be launched.
#[derive(Debug, PartialEq, Eq)]
pub enum LaunchConfigError {
    /// No server has the default agent's name.
    NotConfigured(String),
    /// The default agent's command is empty or whitespace.
    EmptyCommand(String),
}

/// The server configured under `name`: the first entry with that name.
pub open spec fn server_named(servers: Seq<(String, AgentServerConfig)>, name: Seq<char>) -> Option<
    AgentServerConfig,
>
    decreases servers.len(),
{
    if servers.len() == 0 {
        None
    } else if servers[0].0@ == name {
        Some(servers[0].1)
    } else {
        server_named(servers.drop_first(), name)
    }
}

/// No two entries share a name.
pub open spec fn unique_names(servers: Seq<(String, AgentServerConfig)>) -> bool {
    forall|i: int, j: int|
        0 <= i < j < servers.len() ==> #[trigger] servers[i].0@ != #[trigger] servers[j].0@
}

/// A copy of a list of strings.
pub fn copy_strings(v: &Vec<String>) -> (r: Vec<String>)
    ensures
        r@ == v@,
{
    let mut r: Vec<String> = Vec::new();
    let n = v.len();
    let mut i: usize = 0;
    while i < n
        invariant
            n == v@.len(),
            i <= n,
            r@ == v@.subrange(0, i as int),
        decreases n - i,
    {
        r.push(v[i].clone());
        assert(r@ =~= v@.subrange(0, i + 1));
        i = i + 1;
    }
    assert(v@.subrange(0, n as int) =~= v@);
    r
}

impl AgentServerConfig {
    /// An exact copy.
    pub fn copy(&self) -> (r: AgentServerConfig)
        ensures
            r.command == self.command,
            r.args@ == self.args@,
    {
        AgentServerConfig { command: self.command.clone(), args: copy_strings(&self.args) }
    }
}

proof fn lemma_server_named(servers: Seq<(String, AgentServerConfig)>, name: Seq<char>, i: int)
    requires
        0 <= i <= servers.len(),
        forall|k: int| 0 <= k < i ==> #[trigger] servers[k].0@ != name,
        i < servers.len() ==> servers[i].0@ == name,
    ensures
        server_named(servers, name) == if i < servers.len() {
            Some(servers[i].1)
        } else {
            None
        },
    decreases i,
{
    if i > 0 {
        let t = servers.drop_first();
        assert forall|k: int| 0 <= k < i - 1 implies #[trigger] t[k].0@ != name by {
            assert(t[k] == servers[k + 1]);
        }
        lemma_server_named(t, name, i - 1);
    }
}

fn find_server(servers: &Vec<(String, AgentServerConfig)>, name: &str) -> (r: Option<usize>)
    ensures
        match r {
            Some(i) => i < servers@.len() && servers@[i as int].0@ == name@ && server_named(
                servers@,
                name@,
            ) == Some(servers@[i as int].1),
            None => server_named(servers@, name@) is None,
        },
{
    let n = servers.len();
    let mut i: usize = 0;
    while i < n
        invariant
            n == servers@.len(),
            i <= n,
            forall|k: int| 0 <= k < i ==> #[trigger] servers@[k].0@ != name@,
        decreases n - i,
    {
        if crate::text::str_eq(servers[i].0.as_str(), name) {
            proof {
                lemma_server_named(servers@, name@, i as int);
            }
            return Some(i);
        }
        i = i + 1;
    }
    proof {
        lemma_server_named(servers@, name@, n as int);
    }
    None
}

/// Adds or replaces the server under a name, keeping names unique.
pub fn insert_server(
    servers: &mut Vec<(String, AgentServerConfig)>,
    name: String,
    server: AgentServerConfig,
)
    requires
        unique_names(old(servers)@),
    ensures
        unique_names(final(servers)@),
        server_named(final(servers)@, name@) == Some(server),
        forall|other: Seq<char>|
            other != name@ ==> server_named(final(servers)@, other) == server_named(
                old(servers)@,
                other,
            ),
{
    let ghost key = name@;
    match find_server(servers, name.as_str()) {
        Some(i) => {
            let _ = servers.remove(i);
            servers.insert(i, (name, server));
            proof {
                assert(final(servers)@ =~= old(servers)@.update(i as int, (name, server)));
                assert forall|k: int| 0 <= k < i implies #[trigger] final(servers)@[k].0@ != key by {
                    assert(final(servers)@[k] == old(servers)@[k]);
                    assert(old(servers)@[k].0@ != old(servers)@[i as int].0@);
                }
                assert forall|a: int, b: int|
                    0 <= a < b < final(servers)@.len() implies #[trigger] final(servers)@[a].0@
                    != #[trigger] final(servers)@[b].0@ by {
                    assert(old(servers)@[a].0@ != old(servers)@[b].0@);
                }
                lemma_server_named(final(servers)@, key, i as int);
                assert forall|other: Seq<char>| other != key implies server_named(
                    final(servers)@,
                    other,
                ) == server_named(old(servers)@, other) by {
                    lemma_same_lookup(old(servers)@, final(servers)@, other, i as int);
                }
            }
        },
        None => {
            servers.push((name, server));
            proof {
                let n = old(servers)@.len() as int;
                assert forall|k: int| 0 <= k < n implies #[trigger] final(servers)@[k].0@
                    != key by {
                    assert(final(servers)@[k] == old(servers)@[k]);
                    if old(servers)@[k].0@ == key {
                        lemma_server_named_some(old(servers)@, key, k);
                    }
                }
                lemma_server_named(final(servers)@, key, n);
                assert forall|a: int, b: int|
                    0 <= a < b < final(servers)@.len() implies #[trigger] final(servers)@[a].0@
                    != #[trigger] final(servers)@[b].0@ by {
                    if b < n {
                        assert(old(servers)@[a].0@ != old(servers)@[b].0@);
                    }
                }
                assert forall|other: Seq<char>| other != key implies server_named(
                    final(servers)@,
                    other,
                ) == server_named(old(servers)@, other) by {
                    lemma_lookup_push(old(servers)@, (name, server), other);
                }
            }
        },
    }
}

proof fn lemma_server_named_some(servers: Seq<(String, AgentServerConfig)>, name: Seq<char>, k: int)
    requires
        0 <= k < servers.len(),
        servers[k].0@ == name,
    ensures
        server_named(servers, name) is Some,
    decreases servers.len(),
{
    if servers[0].0@ != name {
        let t = servers.drop_first();
        assert(t[k - 1] == servers[k]);
        lemma_server_named_some(t, name, k - 1);
    }
}

proof fn lemma_same_lookup(
    a: Seq<(String, AgentServerConfig)>,
    b: Seq<(String, AgentServerConfig)>,
    other: Seq<char>,
    i: int,
)
    requires
        a.len() == b.len(),
        0 <= i < a.len(),
        a[i].0@ == b[i].0@,
        a[i].0@ != other,
        forall|k: int| 0 <= k < a.len() && k != i ==> #[trigger] b[k] == a[k],
    ensures
        server_named(b, other) == server_named(a, other),
    decreases a.len(),
{
    if a.len() > 0 && a[0].0@ != other {
        let (ta, tb) = (a.drop_first(), b.drop_first());
        if i > 0 {
            assert forall|k: int| 0 <= k < ta.len() && k != i - 1 implies #[trigger] tb[k]
                == ta[k] by {
                assert(tb[k] == b[k + 1]);
                assert(ta[k] == a[k + 1]);
            }
            lemma_same_lookup(ta, tb, other, i - 1);
        } else {
            assert(ta =~= tb) by {
                assert forall|k: int| 0 <= k < ta.len() implies tb[k] == ta[k] by {
                    assert(b[k + 1] == a[k + 1]);
                }
            }
        }
    }
}

proof fn lemma_lookup_push(
    a: Seq<(String, AgentServerConfig)>,
    e: (String, AgentServerConfig),
    other: Seq<char>,
)
    requires
        e.0@ != other,
    ensures
        server_named(a.push(e), other) == server_named(a, other),
    decreases a.len(),
{
    if a.len() > 0 && a[0].0@ != other {
        assert(a.push(e).drop_first() =~= a.drop_first().push(e));
        lemma_lookup_push(a.drop_first(), e, other);
    } else if a.len() == 0 {
        assert(a.push(e).drop_first() =~= a);
    }
}

/// The servers available out of the box: `codex` runs `codex acp`.
pub fn default_servers() -> (r: Vec<(String, AgentServerConfig)>)
    ensures
        r@.len() == 1,
        r@[0].0@ == "codex"@,
        r@[0].1.command@ == "codex"@,
        r@[0].1.args@.len() == 1,
        r@[0].1.args@[0]@ == "acp"@,
{
    let mut args: Vec<String> = Vec::new();
    args.push(owned("acp"));
    let mut r: Vec<(String, AgentServerConfig)> = Vec::new();
    r.push((owned("codex"), AgentServerConfig { command: owned("codex"), args }));
    r
}

impl Default for AgentConfig {
    /// Disabled, with every context source on, shell approval required, and
    /// the `codex` server as the default agent.
    fn default() -> (r: Self)
        ensures
            !r.enable,
            r.default_agent@ == "codex"@,
            r.auto_context_on_open,
            r.include_theme,
            r.include_command_history,
            r.include_visible_buffer,
            r.include_diagnostics,
            r.require_approval_for_shell,
            r.servers@.len() == 1,
            r.servers@[0].0@ == "codex"@,
            r.servers@[0].1.command@ == "codex"@,
            r.servers@[0].1.args@.len() == 1,
            r.servers@[0].1.args@[0]@ == "acp"@,
    {
        AgentConfig {
            enable: false,
            default_agent: owned("codex"),
            auto_context_on_open: true,
            include_theme: true,
            include_command_history: true,
            include_visible_buffer: true,
            include_diagnostics: true,
            require_approval_for_shell: true,
            servers: default_servers(),
        }
    }
}

impl LaunchConfigError {
    /// The error text shown to the user.
    pub fn message(&self) -> (r: String)
        ensures
            r@ == match self {
                LaunchConfigError::NotConfigured(n) => "agent server '"@ + n@
                    + "' is not configured"@,
                LaunchConfigError::EmptyCommand(n) => "agent server '"@ + n@
                    + "' has an empty command"@,
            },
    {
        let mut r = owned("agent server '");
        match self {
            LaunchConfigError::NotConfigured(n) => {
                r.append(n.as_str());
                r.append("' is not configured");
            },
            LaunchConfigError::EmptyCommand(n) => {
                r.append(n.as_str());
                r.append("' has an empty command");
            },
        }
        r
    }
}

impl AgentConfig {
    /// The command line of the default agent: an error when no server has
    /// its name or when the server's command is blank.
    pub fn launch_config(&self) -> (r: Result<AgentLaunchConfig, LaunchConfigError>)
        ensures
            match server_named(self.servers@, self.default_agent@) {
                None => r matches Err(LaunchConfigError::NotConfigured(n)) && n@
                    == self.default_agent@,
                Some(s) => if trim(s.command@).len() == 0 {
                    r matches Err(LaunchConfigError::EmptyCommand(n)) && n@ == self.default_agent@
                } else {
                    r matches Ok(l) && l.name@ == self.default_agent@ && l.command == s.command
                        && l.args@ == s.args@
                },
            },
    {
        let i = match find_server(&self.servers, self.default_agent.as_str()) {
            Some(i) => i,
            None => return Err(LaunchConfigError::NotConfigured(self.default_agent.clone())),
        };
        let server = &self.servers[i].1;
        if is_blank(server.command.as_str()) {
            return Err(LaunchConfigError::EmptyCommand(self.default_agent.clone()));
        }
        Ok(
            AgentLaunchConfig {
                name: self.default_agent.clone(),
                command: server.command.clone(),
                args: copy_strings(&server.args),
            },
        )
    }
}

/// Law: a name finds the server of its first entry: the entry is at some
/// position `k` with that name and its server, no entry before `k` has the
/// name, and nothing is found only when no entry has it.
pub proof fn law_name_finds_its_first_entry(
    servers: Seq<(String, AgentServerConfig)>,
    name: Seq<char>,
)
    ensures
        server_named(servers, name) matches Some(s) ==> exists|k: int|
            0 <= k < servers.len() && servers[k].0@ == name && servers[k].1 == s && forall|j: int|
                0 <= j < k ==> #[trigger] servers[j].0@ != name,
        server_named(servers, name) is None ==> forall|k: int|
            0 <= k < servers.len() ==> #[trigger] servers[k].0@ != name,
    decreases servers.len(),
{
    if servers.len() > 0 {
        let rest = servers.drop_first();
        law_name_finds_its_first_entry(rest, name);
        if servers[0].0@ == name {
            assert(servers[0].1 == server_named(servers, name)->0);
        } else {
            if let Some(s) = server_named(servers, name) {
                let k = choose|k: int|
                    0 <= k < rest.len() && rest[k].0@ == name && rest[k].1 == s && forall|j: int|
                        0 <= j < k ==> #[trigger] rest[j].0@ != name;
                assert(servers[k + 1] == rest[k]);
                assert forall|j: int| 0 <= j < k + 1 implies #[trigger] servers[j].0@ != name by {
                    if j > 0 {
                        assert(servers[j] == rest[j - 1]);
                    }
                }
            } else {
                assert forall|k: int| 0 <= k < servers.len() implies #[trigger] servers[k].0@
                    != name by {
                    if k > 0 {
                        assert(servers[k] == rest[k - 1]);
                    }
                }
            }
        }
    }
}

} // verus!
