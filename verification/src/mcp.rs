//! The MCP server registry kept inside the assistant's own
//! configuration document, under its `mcpServers` table: reading the
//! registered servers out of a document, filing a new one, and
//! removing one by name. The caller reads and writes the document
//! itself; every function here is a pure document transformation.

use vstd::prelude::*;

use crate::assoc::assoc_get;
use crate::assoc::assoc_remove;
use crate::assoc::assoc_set;
use crate::document::entries_view;
use crate::document::duplicate_entries;
use crate::document::table_get;
use crate::document::table_remove;
use crate::document::table_set;
use crate::document::ConfigModel;
use crate::document::ConfigValue;
use crate::document::TableModel;
use crate::text::opt_string_view;
use crate::text::pairs_view;
use crate::text::str_eq;

verus! {

/// A registered MCP server, as the GUI lists it.
#[derive(Debug, PartialEq)]
pub struct McpServer {
    pub name: String,
    pub server_type: String,
    pub command: Option<String>,
    pub args: Option<Vec<String>>,
    pub url: Option<String>,
    pub env: Option<Vec<(String, String)>>,
    pub headers: Option<Vec<(String, String)>>,
}

/// The mathematical model of a registered server.
pub struct McpServerModel {
    pub name: Seq<char>,
    pub server_type: Seq<char>,
    pub command: Option<Seq<char>>,
    pub args: Option<Seq<Seq<char>>>,
    pub url: Option<Seq<char>>,
    pub env: Option<Seq<(Seq<char>, Seq<char>)>>,
    pub headers: Option<Seq<(Seq<char>, Seq<char>)>>,
}

/// The model of an optional argument vector.
pub open spec fn opt_args_view(o: Option<Vec<String>>) -> Option<Seq<Seq<char>>> {
    match o {
        Some(v) => Some(crate::shell::args_view(v@)),
        None => None,
    }
}

/// The model of an optional string-pair list.
pub open spec fn opt_pairs_view(o: Option<Vec<(String, String)>>) -> Option<
    Seq<(Seq<char>, Seq<char>)>,
> {
    match o {
        Some(v) => Some(pairs_view(v@)),
        None => None,
    }
}

impl View for McpServer {
    type V = McpServerModel;

    open spec fn view(&self) -> McpServerModel {
        McpServerModel {
            name: self.name@,
            server_type: self.server_type@,
            command: opt_string_view(self.command),
            args: opt_args_view(self.args),
            url: opt_string_view(self.url),
            env: opt_pairs_view(self.env),
            headers: opt_pairs_view(self.headers),
        }
    }
}

/// The fields a caller supplies when registering a server.
pub struct McpServerInput {
    pub name: String,
    pub server_type: String,
    pub command: Option<String>,
    pub args: Option<Vec<String>>,
    pub url: Option<String>,
    pub env: Option<Vec<(String, String)>>,
    pub headers: Option<Vec<(String, String)>>,
}

impl View for McpServerInput {
    type V = McpServerModel;

    open spec fn view(&self) -> McpServerModel {
        McpServerModel {
            name: self.name@,
            server_type: self.server_type@,
            command: opt_string_view(self.command),
            args: opt_args_view(self.args),
            url: opt_string_view(self.url),
            env: opt_pairs_view(self.env),
            headers: opt_pairs_view(self.headers),
        }
    }
}

/// The string member `key` of a table value, if both exist.
pub open spec fn table_str_field(v: ConfigModel, key: Seq<char>) -> Option<Seq<char>> {
    match v {
        ConfigModel::Table(t) => match assoc_get(t, key) {
            Some(f) => match f {
                ConfigModel::Str(s) => Some(s),
                _ => None,
            },
            None => None,
        },
        _ => None,
    }
}

/// The string elements of a value list, in order, everything else
/// passed over.
pub open spec fn str_elems(xs: Seq<ConfigModel>) -> Seq<Seq<char>>
    decreases xs.len(),
{
    if xs.len() == 0 {
        Seq::empty()
    } else {
        let rest = str_elems(xs.drop_first());
        match xs[0] {
            ConfigModel::Str(s) => seq![s] + rest,
            _ => rest,
        }
    }
}

/// The argument list of a server value: the string elements of its
/// `args` array, or nothing when there is no such array.
pub open spec fn table_args_field(v: ConfigModel) -> Option<Seq<Seq<char>>> {
    match v {
        ConfigModel::Table(t) => match assoc_get(t, "args"@) {
            Some(f) => match f {
                ConfigModel::Arr(xs) => Some(str_elems(xs)),
                _ => None,
            },
            None => None,
        },
        _ => None,
    }
}

/// Every value of the table is a string.
pub open spec fn all_string_values(t: TableModel) -> bool {
    forall|i: int| 0 <= i < t.len() ==> (#[trigger] t[i]).1 is Str
}

/// The table as string pairs; meaningful under `all_string_values`.
pub open spec fn string_pairs(t: TableModel) -> Seq<(Seq<char>, Seq<char>)> {
    Seq::new(t.len(), |i: int| (t[i].0, t[i].1->Str_0))
}

/// The string map under `key` of a table value: its entries when every
/// one of them holds a string, nothing otherwise.
pub open spec fn table_pairs_field(v: ConfigModel, key: Seq<char>) -> Option<
    Seq<(Seq<char>, Seq<char>)>,
> {
    match v {
        ConfigModel::Table(t) => match assoc_get(t, key) {
            Some(f) => match f {
                ConfigModel::Table(m) => if all_string_values(m) {
                    Some(string_pairs(m))
                } else {
                    None
                },
                _ => None,
            },
            None => None,
        },
        _ => None,
    }
}

/// The server type of a server value: its `type` string, with `stdio`
/// standing in when none is given.
pub open spec fn server_type_of(v: ConfigModel) -> Seq<char> {
    match table_str_field(v, "type"@) {
        Some(s) => s,
        None => "stdio"@,
    }
}

/// The server a registry entry describes.
pub open spec fn server_of(name: Seq<char>, v: ConfigModel) -> McpServerModel {
    McpServerModel {
        name,
        server_type: server_type_of(v),
        command: table_str_field(v, "command"@),
        args: table_args_field(v),
        url: table_str_field(v, "url"@),
        env: table_pairs_field(v, "env"@),
        headers: table_pairs_field(v, "headers"@),
    }
}

/// The servers a configuration document registers, in document order.
pub open spec fn servers_of(root: TableModel) -> Seq<McpServerModel> {
    match assoc_get(root, "mcpServers"@) {
        Some(cur) => match cur {
            ConfigModel::Table(t) => Seq::new(t.len(), |i: int| server_of(t[i].0, t[i].1)),
            _ => Seq::empty(),
        },
        None => Seq::empty(),
    }
}

/// The model of a server list.
pub open spec fn servers_view(s: Seq<McpServer>) -> Seq<McpServerModel> {
    Seq::new(s.len(), |i: int| s[i]@)
}

/// The registry table of a document: its `mcpServers` table, or an
/// empty one when the document has none.
pub open spec fn registry_of(root: TableModel) -> TableModel {
    match assoc_get(root, "mcpServers"@) {
        Some(cur) => match cur {
            ConfigModel::Table(t) => t,
            _ => Seq::empty(),
        },
        None => Seq::empty(),
    }
}

/// A list of texts as a list of string values.
pub open spec fn strs_of(a: Seq<Seq<char>>) -> Seq<ConfigModel> {
    Seq::new(a.len(), |i: int| ConfigModel::Str(a[i]))
}

/// A list of text pairs as a table of string values.
pub open spec fn str_table_of(e: Seq<(Seq<char>, Seq<char>)>) -> TableModel {
    Seq::new(e.len(), |i: int| (e[i].0, ConfigModel::Str(e[i].1)))
}

/// The entry a registered server is stored under: the supplied fields
/// in a fixed order, the transport type only when it is not the stdio
/// default, headers never.
pub open spec fn server_value_of(i: McpServerModel) -> TableModel {
    let t0 = Seq::<(Seq<char>, ConfigModel)>::empty();
    let t1 = match i.command {
        Some(c) => t0.push(("command"@, ConfigModel::Str(c))),
        None => t0,
    };
    let t2 = match i.args {
        Some(a) => t1.push(("args"@, ConfigModel::Arr(strs_of(a)))),
        None => t1,
    };
    let t3 = match i.url {
        Some(u) => t2.push(("url"@, ConfigModel::Str(u))),
        None => t2,
    };
    let t4 = match i.env {
        Some(e) => t3.push(("env"@, ConfigModel::Table(str_table_of(e)))),
        None => t3,
    };
    if i.server_type != "stdio"@ {
        t4.push(("type"@, ConfigModel::Str(i.server_type)))
    } else {
        t4
    }
}

/// Reads the string member `key` of a server value.
fn read_str_field(v: &ConfigValue, key: &str) -> (r: Option<String>)
    ensures
        opt_string_view(r) == table_str_field(v@, key@),
{
    match v {
        ConfigValue::Table(t) => match table_get(t, key) {
            Some(f) => match f {
                ConfigValue::Str(s) => Some(s.clone()),
                _ => None,
            },
            None => None,
        },
        _ => None,
    }
}

/// The string elements of a value list, as `str_elems` describes it.
fn collect_str_elems(xs: &Vec<ConfigValue>) -> (r: Vec<String>)
    ensures
        crate::shell::args_view(r@) == str_elems(crate::document::elems_view(xs@)),
{
    let mut out: Vec<String> = Vec::new();
    let mut i: usize = 0;
    proof {
        assert(crate::document::elems_view(xs@).skip(0) =~= crate::document::elems_view(xs@));
        assert(crate::shell::args_view(out@) =~= Seq::<Seq<char>>::empty());
    }
    while i < xs.len()
        invariant
            0 <= i <= xs.len(),
            crate::shell::args_view(out@) + str_elems(crate::document::elems_view(xs@).skip(i as int))
                == str_elems(crate::document::elems_view(xs@)),
        decreases xs.len() - i,
    {
        let ghost pre = crate::shell::args_view(out@);
        let ghost tail = crate::document::elems_view(xs@).skip(i as int);
        proof {
            assert(tail[0] == crate::document::elems_view(xs@)[i as int]);
            assert(tail.drop_first() =~= crate::document::elems_view(xs@).skip(i as int + 1));
        }
        match &xs[i] {
            ConfigValue::Str(s) => {
                out.push(s.clone());
                proof {
                    assert(crate::shell::args_view(out@) =~= pre.push(s@));
                    assert(seq![s@] + str_elems(tail.drop_first()) =~= str_elems(
                        tail,
                    ));
                    assert(pre.push(s@) + str_elems(tail.drop_first()) =~= pre + str_elems(tail));
                }
            },
            _ => {
                proof {
                    assert(str_elems(tail) == str_elems(tail.drop_first()));
                }
            },
        }
        i = i + 1;
    }
    proof {
        assert(crate::document::elems_view(xs@).skip(i as int).len() == 0);
        assert(crate::shell::args_view(out@) + Seq::<Seq<char>>::empty() =~= crate::shell::args_view(
            out@,
        ));
    }
    out
}

/// Reads the argument list of a server value.
fn read_args_field(v: &ConfigValue) -> (r: Option<Vec<String>>)
    ensures
        opt_args_view(r) == table_args_field(v@),
{
    match v {
        ConfigValue::Table(t) => match table_get(t, "args") {
            Some(f) => match f {
                ConfigValue::Arr(xs) => Some(collect_str_elems(xs)),
                _ => None,
            },
            None => None,
        },
        _ => None,
    }
}

/// Reads the string map under `key` of a server value.
#[verifier::loop_isolation(false)]
fn read_pairs_field(v: &ConfigValue, key: &str) -> (r: Option<Vec<(String, String)>>)
    ensures
        opt_pairs_view(r) == table_pairs_field(v@, key@),
{
    match v {
        ConfigValue::Table(t) => match table_get(t, key) {
            Some(f) => match f {
                ConfigValue::Table(m) => {
                    let mut out: Vec<(String, String)> = Vec::new();
                    let mut i: usize = 0;
                    while i < m.len()
                        invariant
                            0 <= i <= m.len(),
                            out@.len() == i,
                            forall|j: int| 0 <= j < i ==> entries_view(m@)[j].1 is Str,
                            forall|j: int| 0 <= j < i ==> (#[trigger] out@[j]).0@ == entries_view(
                                m@,
                            )[j].0 && out@[j].1@ == entries_view(m@)[j].1->Str_0,
                        decreases m.len() - i,
                    {
                        match &m[i].1 {
                            ConfigValue::Str(s) => {
                                out.push((m[i].0.clone(), s.clone()));
                            },
                            _ => {
                                proof {
                                    assert(entries_view(m@)[i as int].1 == m@[i as int].1@);
                                    assert(!(entries_view(m@)[i as int].1 is Str));
                                    assert(!all_string_values(entries_view(m@)));
                                }
                                return None;
                            },
                        }
                        i = i + 1;
                    }
                    proof {
                        assert(all_string_values(entries_view(m@)));
                        assert(pairs_view(out@) =~= string_pairs(entries_view(m@)));
                    }
                    Some(out)
                },
                _ => None,
            },
            None => None,
        },
        _ => None,
    }
}

/// The MCP server registry: pure transformations of the assistant's
/// configuration document.
pub struct McpService;

impl McpService {
    /// The servers the document registers, in document order, as
    /// `servers_of` describes them.
    pub fn get_all(config: &Vec<(String, ConfigValue)>) -> (r: Vec<McpServer>)
        ensures
            servers_view(r@) == servers_of(entries_view(config@)),
    {
        let mut out: Vec<McpServer> = Vec::new();
        match table_get(config, "mcpServers") {
            Some(cur) => match cur {
                ConfigValue::Table(t) => {
                    let mut i: usize = 0;
                    while i < t.len()
                        invariant
                            0 <= i <= t.len(),
                            out@.len() == i,
                            forall|j: int| 0 <= j < i ==> (#[trigger] out@[j])@ == server_of(
                                entries_view(t@)[j].0,
                                entries_view(t@)[j].1,
                            ),
                        decreases t.len() - i,
                    {
                        let name = t[i].0.clone();
                        let v = &t[i].1;
                        let server_type: String = match read_str_field(v, "type") {
                            Some(s) => s,
                            None => "stdio".to_owned(),
                        };
                        let server = McpServer {
                            name,
                            server_type,
                            command: read_str_field(v, "command"),
                            args: read_args_field(v),
                            url: read_str_field(v, "url"),
                            env: read_pairs_field(v, "env"),
                            headers: read_pairs_field(v, "headers"),
                        };
                        out.push(server);
                        i = i + 1;
                    }
                    proof {
                        assert(servers_view(out@) =~= servers_of(entries_view(config@)));
                    }
                },
                _ => {
                    proof {
                        assert(servers_view(out@) =~= servers_of(entries_view(config@)));
                    }
                },
            },
            None => {
                proof {
                    assert(servers_view(out@) =~= servers_of(entries_view(config@)));
                }
            },
        }
        out
    }

    /// Registers `input` as a server entry: the registry table —
    /// created empty when the document has none — gains an entry under
    /// the input's name holding the supplied fields, the transport
    /// type only when it is not the stdio default, and headers never.
    /// Every other registered server, and every other entry of the
    /// document, stays as it was. The registered server is returned,
    /// headers included.
    pub fn add(config: &mut Vec<(String, ConfigValue)>, input: McpServerInput) -> (r: McpServer)
        requires
            match assoc_get(entries_view(old(config)@), "mcpServers"@) {
                Some(cur) => cur is Table,
                None => true,
            },
        ensures
            r@ == input@,
            entries_view(final(config)@) == assoc_set(
                entries_view(old(config)@),
                "mcpServers"@,
                ConfigModel::Table(
                    assoc_set(
                        registry_of(entries_view(old(config)@)),
                        input@.name,
                        ConfigModel::Table(server_value_of(input@)),
                    ),
                ),
            ),
    {
        let mut value: Vec<(String, ConfigValue)> = Vec::new();
        proof {
            assert(entries_view(value@) =~= Seq::<(Seq<char>, ConfigModel)>::empty());
        }
        match &input.command {
            Some(c) => value.push(("command".to_owned(), ConfigValue::Str(c.clone()))),
            None => {},
        }
        match &input.args {
            Some(a) => {
                let mut av: Vec<ConfigValue> = Vec::new();
                let mut i: usize = 0;
                while i < a.len()
                    invariant
                        0 <= i <= a@.len(),
                        av@.len() == i,
                        forall|j: int| 0 <= j < i ==> (#[trigger] av@[j])@ == ConfigModel::Str(
                            a@[j]@,
                        ),
                    decreases a@.len() - i,
                {
                    av.push(ConfigValue::Str(a[i].clone()));
                    i = i + 1;
                }
                proof {
                    assert(crate::document::elems_view(av@) =~= strs_of(
                        crate::shell::args_view(a@),
                    ));
                }
                value.push(("args".to_owned(), ConfigValue::Arr(av)));
            },
            None => {},
        }
        match &input.url {
            Some(u) => value.push(("url".to_owned(), ConfigValue::Str(u.clone()))),
            None => {},
        }
        match &input.env {
            Some(e) => {
                let mut ev: Vec<(String, ConfigValue)> = Vec::new();
                let mut i: usize = 0;
                while i < e.len()
                    invariant
                        0 <= i <= e@.len(),
                        ev@.len() == i,
                        forall|j: int| 0 <= j < i ==> (#[trigger] ev@[j]).0@ == e@[j].0@
                            && ev@[j].1@ == ConfigModel::Str(e@[j].1@),
                    decreases e@.len() - i,
                {
                    ev.push((e[i].0.clone(), ConfigValue::Str(e[i].1.clone())));
                    i = i + 1;
                }
                proof {
                    assert(entries_view(ev@) =~= str_table_of(pairs_view(e@)));
                }
                value.push(("env".to_owned(), ConfigValue::Table(ev)));
            },
            None => {},
        }
        if !str_eq(input.server_type.as_str(), "stdio") {
            value.push(("type".to_owned(), ConfigValue::Str(input.server_type.clone())));
        }
        proof {
            assert(entries_view(value@) =~= server_value_of(input@));
        }
        let mut servers: Vec<(String, ConfigValue)>;
        match table_get(config, "mcpServers") {
            Some(cur) => match cur {
                ConfigValue::Table(t) => {
                    servers = duplicate_entries(t);
                },
                _ => {
                    proof {
                        assert(false);
                    }
                    servers = Vec::new();
                },
            },
            None => {
                servers = Vec::new();
                proof {
                    assert(entries_view(servers@) =~= registry_of(entries_view(old(config)@)));
                }
            },
        }
        table_set(&mut servers, input.name.as_str(), ConfigValue::Table(value));
        table_set(config, "mcpServers", ConfigValue::Table(servers));
        McpServer {
            name: input.name,
            server_type: input.server_type,
            command: input.command,
            args: input.args,
            url: input.url,
            env: input.env,
            headers: input.headers,
        }
    }

    /// Removes the server registered under `name`, when a registry
    /// table exists; every other entry of the document stays as it is.
    pub fn delete(config: &mut Vec<(String, ConfigValue)>, name: &str)
        ensures
            entries_view(final(config)@) == (match assoc_get(
                entries_view(old(config)@),
                "mcpServers"@,
            ) {
                Some(cur) => match cur {
                    ConfigModel::Table(t) => assoc_set(
                        entries_view(old(config)@),
                        "mcpServers"@,
                        ConfigModel::Table(assoc_remove(t, name@)),
                    ),
                    _ => entries_view(old(config)@),
                },
                None => entries_view(old(config)@),
            }),
    {
        let mut servers: Vec<(String, ConfigValue)>;
        match table_get(config, "mcpServers") {
            Some(cur) => match cur {
                ConfigValue::Table(t) => {
                    servers = duplicate_entries(t);
                },
                _ => {
                    return ;
                },
            },
            None => {
                return ;
            },
        }
        table_remove(&mut servers, name);
        table_set(config, "mcpServers", ConfigValue::Table(servers));
    }
}

} // verus!
