use vstd::prelude::*;
use vstd::string::StringExecFns;
use crate::config::ConfigParsed;
use crate::config::ConfigServerParsed;
use crate::config::ConfigServerParsedV;
use crate::error::AppError;
use crate::error::AppErrorV;
use crate::json::key_is;

verus! {

broadcast use vstd::std_specs::vec::group_vec_axioms, vstd::seq::group_seq_axioms;

/// The command-line inputs, gathered but not yet validated.
#[derive(Debug)]
pub struct CliInput {
    pub api_token: Option<String>,
    pub server: String,
    pub verbosity: usize,
}

pub struct CliInputV {
    pub api_token: Option<Seq<char>>,
    pub server: Seq<char>,
    pub verbosity: usize,
}

impl View for CliInput {
    type V = CliInputV;

    open spec fn view(&self) -> CliInputV {
        CliInputV {
            api_token: self.api_token.deep_view(),
            server: self.server@,
            verbosity: self.verbosity,
        }
    }
}

/// The validated inputs: a verbosity and the one server to talk to.
#[derive(Debug)]
pub struct CliValid {
    pub verbosity: usize,
    pub server: ConfigServerParsed,
}

pub struct CliValidV {
    pub verbosity: usize,
    pub server: ConfigServerParsedV,
}

impl View for CliValid {
    type V = CliValidV;

    open spec fn view(&self) -> CliValidV {
        CliValidV { verbosity: self.verbosity, server: self.server@ }
    }
}

/// The name the command line chooses: "default" stands for the
/// configuration's default server.
pub open spec fn chosen_server_name(cli: CliInputV, config_default: Seq<char>) -> Seq<char> {
    if cli.server == "default"@ {
        config_default
    } else {
        cli.server
    }
}

/// The first server carrying the given name, if any does.
pub open spec fn find_server(servers: Seq<ConfigServerParsedV>, name: Seq<char>) -> Option<
    ConfigServerParsedV,
>
    decreases servers.len(),
{
    if servers.len() == 0 {
        None
    } else if servers[0].name == name {
        Some(servers[0])
    } else {
        find_server(servers.drop_first(), name)
    }
}

pub proof fn lemma_find_server_hit(servers: Seq<ConfigServerParsedV>, name: Seq<char>, i: int)
    requires
        0 <= i < servers.len(),
        servers[i].name == name,
        forall|j: int| 0 <= j < i ==> servers[j].name != name,
    ensures
        find_server(servers, name) == Some(servers[i]),
    decreases i,
{
    if i > 0 {
        lemma_find_server_hit(servers.drop_first(), name, i - 1);
    }
}

pub proof fn lemma_find_server_miss(servers: Seq<ConfigServerParsedV>, name: Seq<char>)
    requires
        forall|j: int| 0 <= j < servers.len() ==> servers[j].name != name,
    ensures
        find_server(servers, name) is None,
    decreases servers.len(),
{
    if servers.len() > 0 {
        lemma_find_server_miss(servers.drop_first(), name);
    }
}

/// The complaint raised when the chosen server is not configured.
pub open spec fn server_missing_error(name: Seq<char>) -> AppErrorV {
    AppErrorV::CliConfigServerMissingError(
        "Could not find server '"@ + name + "' in configuration."@,
    )
}

/// Picks the server the command line names (or the configured default)
/// out of the configuration; fails when no server carries that name.
#[verifier::loop_isolation(false)]
pub fn cli_validate(cli: CliInput, config: ConfigParsed) -> (r: Result<CliValid, AppError>)
    ensures
        ({
            let name = chosen_server_name(cli@, config@.default_server);
            match find_server(config@.servers, name) {
                Some(s) => r is Ok && r->Ok_0@ == (CliValidV {
                    verbosity: cli@.verbosity,
                    server: s,
                }),
                None => r is Err && r->Err_0@ == server_missing_error(name),
            }
        }),
{
    let server_name: String = if key_is(&cli.server, "default") {
        config.default_server.clone()
    } else {
        cli.server
    };
    let ghost name = chosen_server_name(cli@, config@.default_server);
    proof {
        assert(server_name@ == name);
    }
    let n = config.servers.len();
    let mut i: usize = 0;
    while i < n
        invariant
            0 <= i <= n,
            forall|j: int| 0 <= j < i ==> config@.servers[j].name != name,
        decreases n - i,
    {
        proof {
            assert(config@.servers[i as int] == config.servers@[i as int]@);
        }
        if key_is(&config.servers[i].name, server_name.as_str()) {
            let found = config.servers[i].clone();
            proof {
                lemma_find_server_hit(config@.servers, name, i as int);
            }
            return Ok(CliValid { verbosity: cli.verbosity, server: found });
        }
        i = i + 1;
    }
    proof {
        lemma_find_server_miss(config@.servers, name);
    }
    let mut msg = "Could not find server '".to_owned();
    msg.append(server_name.as_str());
    msg.append("' in configuration.");
    proof {
        assert(msg@ =~= "Could not find server '"@ + name + "' in configuration."@);
    }
    Err(AppError::CliConfigServerMissingError(msg))
}

} // verus!
