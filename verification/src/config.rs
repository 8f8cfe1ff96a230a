use vstd::prelude::*;

verus! {

broadcast use vstd::std_specs::vec::group_vec_axioms, vstd::seq::group_seq_axioms;

/// One server entry as the configuration file writes it. The secret
/// itself is not in the file: `token_eval` is a shell expression whose
/// output is the token, and evaluating it is the caller's business.
#[derive(Debug)]
pub struct ConfigServerFromFile {
    pub host_url: String,
    pub token_eval: String,
}

pub struct ConfigServerFromFileV {
    pub host_url: Seq<char>,
    pub token_eval: Seq<char>,
}

impl View for ConfigServerFromFile {
    type V = ConfigServerFromFileV;

    open spec fn view(&self) -> ConfigServerFromFileV {
        ConfigServerFromFileV { host_url: self.host_url@, token_eval: self.token_eval@ }
    }
}

impl DeepView for ConfigServerFromFile {
    type V = ConfigServerFromFileV;

    open spec fn deep_view(&self) -> ConfigServerFromFileV {
        self.view()
    }
}

/// The configuration file's content: a default server name and the
/// servers by name.
#[derive(Debug)]
pub struct ConfigFromFile {
    pub default_server: String,
    pub servers: Vec<(String, ConfigServerFromFile)>,
}

pub struct ConfigFromFileV {
    pub default_server: Seq<char>,
    pub servers: Seq<(Seq<char>, ConfigServerFromFileV)>,
}

impl View for ConfigFromFile {
    type V = ConfigFromFileV;

    open spec fn view(&self) -> ConfigFromFileV {
        ConfigFromFileV {
            default_server: self.default_server@,
            servers: Seq::new(
                self.servers@.len(),
                |i: int| (self.servers@[i].0@, self.servers@[i].1@),
            ),
        }
    }
}

/// One server with its secret resolved: ready to issue requests.
#[derive(Debug)]
pub struct ConfigServerParsed {
    pub name: String,
    pub host_url: String,
    pub api_token: String,
}

pub struct ConfigServerParsedV {
    pub name: Seq<char>,
    pub host_url: Seq<char>,
    pub api_token: Seq<char>,
}

impl View for ConfigServerParsed {
    type V = ConfigServerParsedV;

    open spec fn view(&self) -> ConfigServerParsedV {
        ConfigServerParsedV {
            name: self.name@,
            host_url: self.host_url@,
            api_token: self.api_token@,
        }
    }
}

impl DeepView for ConfigServerParsed {
    type V = ConfigServerParsedV;

    open spec fn deep_view(&self) -> ConfigServerParsedV {
        self.view()
    }
}

impl Clone for ConfigServerParsed {
    fn clone(&self) -> (r: Self)
        ensures
            r == *self,
    {
        ConfigServerParsed {
            name: self.name.clone(),
            host_url: self.host_url.clone(),
            api_token: self.api_token.clone(),
        }
    }
}

/// The validated configuration.
#[derive(Debug)]
pub struct ConfigParsed {
    pub default_server: String,
    pub servers: Vec<ConfigServerParsed>,
}

pub struct ConfigParsedV {
    pub default_server: Seq<char>,
    pub servers: Seq<ConfigServerParsedV>,
}

impl View for ConfigParsed {
    type V = ConfigParsedV;

    open spec fn view(&self) -> ConfigParsedV {
        ConfigParsedV {
            default_server: self.default_server@,
            servers: self.servers.deep_view(),
        }
    }
}

/// Pairs every server of the file with its resolved token, in file
/// order. The default server's name is carried over unexamined: whether
/// it names a server is settled at validation of the command line. The
/// result is `None` exactly when the token list does not match the
/// server list in length.
pub fn config_validate(file: ConfigFromFile, tokens: Vec<String>) -> (r: Option<ConfigParsed>)
    ensures
        r is Some <==> tokens@.len() == file.servers@.len(),
        r is Some ==> r->Some_0@.default_server == file.default_server@,
        r is Some ==> r->Some_0@.servers.len() == file.servers@.len(),
        r is Some ==> forall|i: int|
            0 <= i < file.servers@.len() ==> r->Some_0@.servers[i] == (ConfigServerParsedV {
                name: file.servers@[i].0@,
                host_url: file.servers@[i].1.host_url@,
                api_token: tokens@[i]@,
            }),
{
    if tokens.len() != file.servers.len() {
        return None;
    }
    let mut servers: Vec<ConfigServerParsed> = Vec::new();
    let n = file.servers.len();
    let mut i: usize = 0;
    while i < n
        invariant
            0 <= i <= n,
            n == file.servers@.len(),
            n == tokens@.len(),
            servers@.len() == i,
            forall|k: int|
                0 <= k < i ==> servers.deep_view()[k] == (ConfigServerParsedV {
                    name: file.servers@[k].0@,
                    host_url: file.servers@[k].1.host_url@,
                    api_token: tokens@[k]@,
                }),
        decreases n - i,
    {
        let entry = ConfigServerParsed {
            name: file.servers[i].0.clone(),
            host_url: file.servers[i].1.host_url.clone(),
            api_token: tokens[i].clone(),
        };
        let ghost pre = servers.deep_view();
        let ghost ev = entry@;
        servers.push(entry);
        proof {
            assert(servers.deep_view() =~= pre.push(ev));
            assert(servers.deep_view()[i as int] == ev);
            assert(ev == (ConfigServerParsedV {
                name: file.servers@[i as int].0@,
                host_url: file.servers@[i as int].1.host_url@,
                api_token: tokens@[i as int]@,
            }));
        }
        i = i + 1;
    }
    Some(ConfigParsed { default_server: file.default_server, servers })
}

} // verus!
