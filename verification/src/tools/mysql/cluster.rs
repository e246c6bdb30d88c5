use crate::error::{CliError, ErrorView};
use crate::text::{
    concat, concat3, decimal_text, opt_text, parse_u16, same_text, texts, trim, trimmed,
    u64_to_string, unsigned_of, chars_of,
};
use crate::tools::mysql::parser::{
    block_fields, blocks_of, lookup, pairs_of, parse_key_value_pairs, split_into_blocks,
};
use crate::text::{join, joined, join_path, path_join};
use crate::tools::json::{json_member, member_of};
use crate::tools::mysql::parser::field_map;
use vstd::prelude::*;

verus! {

/// A node of the cluster that runs the coordination role.
#[derive(Debug)]
pub struct Frontend {
    pub name: String,
    pub host: String,
    pub edit_log_port: u16,
    pub http_port: u16,
    pub query_port: u16,
    pub rpc_port: u16,
    pub role: String,
    pub is_master: bool,
    pub cluster_id: String,
    pub alive: bool,
    pub version: String,
}

/// What a `Frontend` holds, as plain values.
pub struct FrontendView {
    pub name: Seq<char>,
    pub host: Seq<char>,
    pub edit_log_port: u16,
    pub http_port: u16,
    pub query_port: u16,
    pub rpc_port: u16,
    pub role: Seq<char>,
    pub is_master: bool,
    pub cluster_id: Seq<char>,
    pub alive: bool,
    pub version: Seq<char>,
}

impl View for Frontend {
    type V = FrontendView;

    open spec fn view(&self) -> FrontendView {
        FrontendView {
            name: self.name@,
            host: self.host@,
            edit_log_port: self.edit_log_port,
            http_port: self.http_port,
            query_port: self.query_port,
            rpc_port: self.rpc_port,
            role: self.role@,
            is_master: self.is_master,
            cluster_id: self.cluster_id@,
            alive: self.alive,
            version: self.version@,
        }
    }
}

impl Clone for Frontend {
    fn clone(&self) -> (r: Frontend)
        ensures
            r@ == self@,
    {
        Frontend {
            name: self.name.clone(),
            host: self.host.clone(),
            edit_log_port: self.edit_log_port,
            http_port: self.http_port,
            query_port: self.query_port,
            rpc_port: self.rpc_port,
            role: self.role.clone(),
            is_master: self.is_master,
            cluster_id: self.cluster_id.clone(),
            alive: self.alive,
            version: self.version.clone(),
        }
    }
}

/// A node of the cluster that runs the storage role.
#[derive(Debug)]
pub struct Backend {
    pub backend_id: String,
    pub host: String,
    pub heartbeat_port: u16,
    pub be_port: u16,
    pub http_port: u16,
    pub brpc_port: u16,
    pub alive: bool,
    pub version: String,
    pub status: String,
    pub node_role: String,
    pub tag: Option<String>,
}

/// What a `Backend` holds, as plain values.
pub struct BackendView {
    pub backend_id: Seq<char>,
    pub host: Seq<char>,
    pub heartbeat_port: u16,
    pub be_port: u16,
    pub http_port: u16,
    pub brpc_port: u16,
    pub alive: bool,
    pub version: Seq<char>,
    pub status: Seq<char>,
    pub node_role: Seq<char>,
    pub tag: Option<Seq<char>>,
}

impl View for Backend {
    type V = BackendView;

    open spec fn view(&self) -> BackendView {
        BackendView {
            backend_id: self.backend_id@,
            host: self.host@,
            heartbeat_port: self.heartbeat_port,
            be_port: self.be_port,
            http_port: self.http_port,
            brpc_port: self.brpc_port,
            alive: self.alive,
            version: self.version@,
            status: self.status@,
            node_role: self.node_role@,
            tag: opt_text(self.tag),
        }
    }
}

impl Clone for Backend {
    fn clone(&self) -> (r: Backend)
        ensures
            r@ == self@,
    {
        Backend {
            backend_id: self.backend_id.clone(),
            host: self.host.clone(),
            heartbeat_port: self.heartbeat_port,
            be_port: self.be_port,
            http_port: self.http_port,
            brpc_port: self.brpc_port,
            alive: self.alive,
            version: self.version.clone(),
            status: self.status.clone(),
            node_role: self.node_role.clone(),
            tag: crate::text::clone_opt(&self.tag),
        }
    }
}

/// What a vector of coordination nodes holds.
pub open spec fn frontend_views(v: Seq<Frontend>) -> Seq<FrontendView> {
    Seq::new(v.len(), |i: int| v[i]@)
}

/// What a vector of storage nodes holds.
pub open spec fn backend_views(v: Seq<Backend>) -> Seq<BackendView> {
    Seq::new(v.len(), |i: int| v[i]@)
}

/// The text of a field, without the white space around it.
pub open spec fn text_field(fields: Map<Seq<char>, Seq<char>>, key: Seq<char>) -> Option<
    Seq<char>,
> {
    if fields.contains_key(key) {
        Some(trimmed(fields[key]))
    } else {
        None
    }
}

/// The port that a field writes.
pub open spec fn port_field(fields: Map<Seq<char>, Seq<char>>, key: Seq<char>) -> Option<u16> {
    match text_field(fields, key) {
        Some(t) => match unsigned_of(t, 0xFFFF) {
            Some(n) => Some(n as u16),
            None => None,
        },
        None => None,
    }
}

/// The truth value that a field writes: true for the word `true` and false for
/// anything else.
pub open spec fn bool_field(fields: Map<Seq<char>, Seq<char>>, key: Seq<char>) -> Option<bool> {
    match text_field(fields, key) {
        Some(t) => Some(t == "true"@),
        None => None,
    }
}

/// The text of a field, without the white space around it.
pub fn get_text(fields: &Vec<(String, String)>, key: &str) -> (r: Option<String>)
    ensures
        opt_text(r) == text_field(field_map(pairs_of(fields@)), key@),
{
    match lookup(fields, key) {
        Some(v) => Some(trim(v.as_str())),
        None => None,
    }
}

/// The port that a field writes.
pub fn get_port(fields: &Vec<(String, String)>, key: &str) -> (r: Option<u16>)
    ensures
        r == port_field(field_map(pairs_of(fields@)), key@),
{
    match get_text(fields, key) {
        Some(t) => parse_u16(t.as_str()),
        None => None,
    }
}

/// The truth value that a field writes.
pub fn get_bool(fields: &Vec<(String, String)>, key: &str) -> (r: Option<bool>)
    ensures
        r == bool_field(field_map(pairs_of(fields@)), key@),
{
    match get_text(fields, key) {
        Some(t) => Some(same_text(t.as_str(), "true")),
        None => None,
    }
}

/// The coordination node that the fields of a row describe. Every field must be
/// there, and each port must be a port number.
pub open spec fn frontend_of(fields: Map<Seq<char>, Seq<char>>) -> Option<FrontendView> {
    if text_field(fields, "Name"@) is Some && text_field(fields, "Host"@) is Some && port_field(
        fields,
        "EditLogPort"@,
    ) is Some && port_field(fields, "HttpPort"@) is Some && port_field(fields, "QueryPort"@)
        is Some && port_field(fields, "RpcPort"@) is Some && text_field(fields, "Role"@) is Some
        && bool_field(fields, "IsMaster"@) is Some && text_field(fields, "ClusterId"@) is Some
        && bool_field(fields, "Alive"@) is Some && text_field(fields, "Version"@) is Some {
        Some(
            FrontendView {
                name: text_field(fields, "Name"@)->0,
                host: text_field(fields, "Host"@)->0,
                edit_log_port: port_field(fields, "EditLogPort"@)->0,
                http_port: port_field(fields, "HttpPort"@)->0,
                query_port: port_field(fields, "QueryPort"@)->0,
                rpc_port: port_field(fields, "RpcPort"@)->0,
                role: text_field(fields, "Role"@)->0,
                is_master: bool_field(fields, "IsMaster"@)->0,
                cluster_id: text_field(fields, "ClusterId"@)->0,
                alive: bool_field(fields, "Alive"@)->0,
                version: text_field(fields, "Version"@)->0,
            },
        )
    } else {
        None
    }
}

/// What an optional coordination node holds.
pub open spec fn opt_frontend(o: Option<Frontend>) -> Option<FrontendView> {
    match o {
        Some(f) => Some(f@),
        None => None,
    }
}

impl Frontend {
    /// Parses a coordination node from a row block.
    pub fn parse_from_block(block: &str) -> (r: Option<Frontend>)
        ensures
            opt_frontend(r) == frontend_of(block_fields(block@)),
    {
        let fields = parse_key_value_pairs(block);
        let name = get_text(&fields, "Name")?;
        let host = get_text(&fields, "Host")?;
        let edit_log_port = get_port(&fields, "EditLogPort")?;
        let http_port = get_port(&fields, "HttpPort")?;
        let query_port = get_port(&fields, "QueryPort")?;
        let rpc_port = get_port(&fields, "RpcPort")?;
        let role = get_text(&fields, "Role")?;
        let is_master = get_bool(&fields, "IsMaster")?;
        let cluster_id = get_text(&fields, "ClusterId")?;
        let alive = get_bool(&fields, "Alive")?;
        let version = get_text(&fields, "Version")?;
        Some(
            Frontend {
                name,
                host,
                edit_log_port,
                http_port,
                query_port,
                rpc_port,
                role,
                is_master,
                cluster_id,
                alive,
                version,
            },
        )
    }
}

/// The coordination nodes that row blocks describe, in order; a block that
/// describes none is passed over.
pub open spec fn frontends_of(blocks: Seq<Seq<char>>) -> Seq<FrontendView>
    decreases blocks.len(),
{
    if blocks.len() == 0 {
        seq![]
    } else {
        match frontend_of(block_fields(blocks.last())) {
            Some(f) => frontends_of(blocks.drop_last()).push(f),
            None => frontends_of(blocks.drop_last()),
        }
    }
}

/// The first of two values that is there.
pub open spec fn or_else(a: Option<Seq<char>>, b: Option<Seq<char>>) -> Option<Seq<char>> {
    if a is Some {
        a
    } else {
        b
    }
}

/// A member of a JSON object as it is written, where it has a value.
pub open spec fn member_text(key: Seq<char>, value: Option<Seq<char>>) -> Seq<Seq<char>> {
    match value {
        Some(v) => seq!["\""@ + key + "\":"@ + v],
        None => seq![],
    }
}

/// What is kept of a storage node's tag, given the members that were found in
/// it: a JSON object of the cluster's id, the cluster's name and the location, as
/// far as they were found; the tag as it is where none was; and nothing for a tag
/// that is empty or an empty object.
pub open spec fn tag_summary(
    tag: Seq<char>,
    id: Option<Seq<char>>,
    name: Option<Seq<char>>,
    location: Option<Seq<char>>,
) -> Option<Seq<char>> {
    if tag.len() == 0 || tag == "{}"@ {
        None
    } else {
        let parts = member_text("cloud_cluster_id"@, id) + member_text(
            "cloud_cluster_name"@,
            name,
        ) + member_text("location"@, location);
        if parts.len() > 0 {
            Some("{"@ + joined(parts, ","@) + "}"@)
        } else {
            Some(tag)
        }
    }
}

/// What is kept of a storage node's tag. The cluster's id is the member
/// `cloud_cluster_id`, or else `cloud_unique_id`; its name is the member
/// `cloud_cluster_name`, or else `compute_group_name`.
pub open spec fn tag_info(tag: Seq<char>) -> Option<Seq<char>> {
    tag_summary(
        tag,
        or_else(json_member(tag, "cloud_cluster_id"@), json_member(tag, "cloud_unique_id"@)),
        or_else(json_member(tag, "cloud_cluster_name"@), json_member(tag, "compute_group_name"@)),
        json_member(tag, "location"@),
    )
}

/// Adds a member of a JSON object, as it is written, to `parts`.
fn push_member(parts: &mut Vec<String>, key: &str, value: &Option<String>)
    ensures
        texts(final(parts)@) == texts(old(parts)@) + member_text(key@, opt_text(*value)),
{
    match value {
        Some(v) => {
            let head = concat3("\"", key, "\":");
            let ghost before = texts(parts@);
            parts.push(concat(head.as_str(), v.as_str()));
            assert(texts(parts@) =~= before + member_text(key@, opt_text(*value)));
        },
        None => {
            assert(texts(parts@) =~= texts(parts@) + member_text(key@, opt_text(*value)));
        },
    }
}

/// What is kept of a storage node's tag, given the members that were found in it.
pub fn summarize_tag(
    tag_str: &str,
    id: &Option<String>,
    name: &Option<String>,
    location: &Option<String>,
) -> (r: Option<String>)
    ensures
        opt_text(r) == tag_summary(tag_str@, opt_text(*id), opt_text(*name), opt_text(*location)),
{
    if chars_of(tag_str).len() == 0 || same_text(tag_str, "{}") {
        return None;
    }
    let mut parts: Vec<String> = Vec::new();
    assert(texts(parts@) =~= seq![]);
    push_member(&mut parts, "cloud_cluster_id", id);
    push_member(&mut parts, "cloud_cluster_name", name);
    push_member(&mut parts, "location", location);
    assert(texts(parts@) =~= member_text("cloud_cluster_id"@, opt_text(*id)) + member_text(
        "cloud_cluster_name"@,
        opt_text(*name),
    ) + member_text("location"@, opt_text(*location)));
    if parts.len() > 0 {
        let body = join(&parts, ",");
        Some(concat3("{", body.as_str(), "}"))
    } else {
        Some(tag_str.to_owned())
    }
}

/// The storage node that the fields of a row describe. Every field but the tag
/// must be there, and each port must be a port number.
pub open spec fn backend_of(fields: Map<Seq<char>, Seq<char>>) -> Option<BackendView> {
    if text_field(fields, "BackendId"@) is Some && text_field(fields, "Host"@) is Some
        && port_field(fields, "HeartbeatPort"@) is Some && port_field(fields, "BePort"@) is Some
        && port_field(fields, "HttpPort"@) is Some && port_field(fields, "BrpcPort"@) is Some
        && bool_field(fields, "Alive"@) is Some && text_field(fields, "Version"@) is Some
        && text_field(fields, "Status"@) is Some && text_field(fields, "NodeRole"@) is Some {
        Some(
            BackendView {
                backend_id: text_field(fields, "BackendId"@)->0,
                host: text_field(fields, "Host"@)->0,
                heartbeat_port: port_field(fields, "HeartbeatPort"@)->0,
                be_port: port_field(fields, "BePort"@)->0,
                http_port: port_field(fields, "HttpPort"@)->0,
                brpc_port: port_field(fields, "BrpcPort"@)->0,
                alive: bool_field(fields, "Alive"@)->0,
                version: text_field(fields, "Version"@)->0,
                status: text_field(fields, "Status"@)->0,
                node_role: text_field(fields, "NodeRole"@)->0,
                tag: match text_field(fields, "Tag"@) {
                    Some(t) => tag_info(t),
                    None => None,
                },
            },
        )
    } else {
        None
    }
}

/// What an optional storage node holds.
pub open spec fn opt_backend(o: Option<Backend>) -> Option<BackendView> {
    match o {
        Some(b) => Some(b@),
        None => None,
    }
}

impl Backend {
    /// Parses a storage node from a row block.
    pub fn parse_from_block(block: &str) -> (r: Option<Backend>)
        ensures
            opt_backend(r) == backend_of(block_fields(block@)),
    {
        let fields = parse_key_value_pairs(block);
        let backend_id = get_text(&fields, "BackendId")?;
        let host = get_text(&fields, "Host")?;
        let heartbeat_port = get_port(&fields, "HeartbeatPort")?;
        let be_port = get_port(&fields, "BePort")?;
        let http_port = get_port(&fields, "HttpPort")?;
        let brpc_port = get_port(&fields, "BrpcPort")?;
        let alive = get_bool(&fields, "Alive")?;
        let version = get_text(&fields, "Version")?;
        let status = get_text(&fields, "Status")?;
        let node_role = get_text(&fields, "NodeRole")?;
        let tag = match get_text(&fields, "Tag") {
            Some(t) => Backend::parse_tag_info(t.as_str()),
            None => None,
        };
        Some(
            Backend {
                backend_id,
                host,
                heartbeat_port,
                be_port,
                http_port,
                brpc_port,
                alive,
                version,
                status,
                node_role,
                tag,
            },
        )
    }

    /// What is kept of a storage node's tag.
    pub fn parse_tag_info(tag_str: &str) -> (r: Option<String>)
        ensures
            opt_text(r) == tag_info(tag_str@),
    {
        let id = match member_of(tag_str, "cloud_cluster_id") {
            Some(v) => Some(v),
            None => member_of(tag_str, "cloud_unique_id"),
        };
        let name = match member_of(tag_str, "cloud_cluster_name") {
            Some(v) => Some(v),
            None => member_of(tag_str, "compute_group_name"),
        };
        let location = member_of(tag_str, "location");
        summarize_tag(tag_str, &id, &name, &location)
    }
}

/// The storage nodes that row blocks describe, in order.
pub open spec fn backends_of(blocks: Seq<Seq<char>>) -> Seq<BackendView>
    decreases blocks.len(),
{
    if blocks.len() == 0 {
        seq![]
    } else {
        match backend_of(block_fields(blocks.last())) {
            Some(b) => backends_of(blocks.drop_last()).push(b),
            None => backends_of(blocks.drop_last()),
        }
    }
}

/// What is known of the whole cluster.
#[derive(Debug)]
pub struct ClusterInfo {
    pub frontends: Vec<Frontend>,
    pub backends: Vec<Backend>,
}

/// What a `ClusterInfo` holds, as plain values.
pub struct ClusterInfoView {
    pub frontends: Seq<FrontendView>,
    pub backends: Seq<BackendView>,
}

impl View for ClusterInfo {
    type V = ClusterInfoView;

    open spec fn view(&self) -> ClusterInfoView {
        ClusterInfoView {
            frontends: frontend_views(self.frontends@),
            backends: backend_views(self.backends@),
        }
    }
}

/// The hosts of the storage nodes that are alive, in order.
pub open spec fn alive_hosts(backends: Seq<BackendView>) -> Seq<Seq<char>>
    decreases backends.len(),
{
    if backends.len() == 0 {
        seq![]
    } else if backends.last().alive {
        alive_hosts(backends.drop_last()).push(backends.last().host)
    } else {
        alive_hosts(backends.drop_last())
    }
}

/// What is said of a node that lacks something it must have.
pub open spec fn empty_field(kind: Seq<char>, index: nat, field: Seq<char>) -> ErrorView {
    ErrorView::ConfigError(kind + " "@ + decimal_text(index) + " has an empty "@ + field)
}

/// What a coordination node lacks, if anything: its host, the id of its cluster,
/// or its version.
pub open spec fn frontend_fault(f: FrontendView, index: nat) -> Option<ErrorView> {
    if f.host.len() == 0 {
        Some(empty_field("Frontend"@, index, "host"@))
    } else if f.cluster_id.len() == 0 {
        Some(empty_field("Frontend"@, index, "cluster_id"@))
    } else if f.version.len() == 0 {
        Some(empty_field("Frontend"@, index, "version"@))
    } else {
        None
    }
}

/// What a storage node lacks, if anything: its id, its host, or its version.
pub open spec fn backend_fault(b: BackendView, index: nat) -> Option<ErrorView> {
    if b.backend_id.len() == 0 {
        Some(empty_field("Backend"@, index, "backend_id"@))
    } else if b.host.len() == 0 {
        Some(empty_field("Backend"@, index, "host"@))
    } else if b.version.len() == 0 {
        Some(empty_field("Backend"@, index, "version"@))
    } else {
        None
    }
}

/// The fault of the first coordination node at or after `from` that has one.
pub open spec fn frontend_faults_from(fs: Seq<FrontendView>, from: int) -> Option<ErrorView>
    decreases fs.len() - from,
{
    if from < 0 || from >= fs.len() {
        None
    } else if frontend_fault(fs[from], from as nat) is Some {
        frontend_fault(fs[from], from as nat)
    } else {
        frontend_faults_from(fs, from + 1)
    }
}

/// The fault of the first storage node at or after `from` that has one.
pub open spec fn backend_faults_from(bs: Seq<BackendView>, from: int) -> Option<ErrorView>
    decreases bs.len() - from,
{
    if from < 0 || from >= bs.len() {
        None
    } else if backend_fault(bs[from], from as nat) is Some {
        backend_fault(bs[from], from as nat)
    } else {
        backend_faults_from(bs, from + 1)
    }
}

/// What is wrong with what is known of the cluster, if anything: there is no
/// coordination node, or a node lacks something, coordination nodes first.
pub open spec fn cluster_fault(c: ClusterInfoView) -> Option<ErrorView> {
    if c.frontends.len() == 0 {
        Some(ErrorView::ConfigError("No frontend nodes found"@))
    } else if frontend_faults_from(c.frontends, 0) is Some {
        frontend_faults_from(c.frontends, 0)
    } else {
        backend_faults_from(c.backends, 0)
    }
}

/// Says that a node lacks a field.
fn empty_field_error(kind: &str, index: usize, field: &str) -> (r: CliError)
    ensures
        r@ == empty_field(kind@, index as nat, field@),
{
    let n = u64_to_string(index as u64);
    let head = concat3(kind, " ", n.as_str());
    CliError::ConfigError(concat3(head.as_str(), " has an empty ", field))
}

/// The file in which the cluster is kept, under the console's directory.
pub open spec fn clusters_file(config_dir: Seq<char>) -> Seq<char> {
    path_join(config_dir, "clusters.toml"@)
}

impl ClusterInfo {
    /// The hosts of the storage nodes that are alive.
    pub fn list_be_hosts(&self) -> (r: Vec<String>)
        ensures
            texts(r@) == alive_hosts(self@.backends),
    {
        let mut hosts: Vec<String> = Vec::new();
        let mut i: usize = 0;
        let ghost all = backend_views(self.backends@);
        assert(all.take(0) =~= Seq::<BackendView>::empty());
        assert(texts(hosts@) =~= seq![]);
        while i < self.backends.len()
            invariant
                i <= self.backends.len(),
                all == backend_views(self.backends@),
                texts(hosts@) == alive_hosts(all.take(i as int)),
            decreases self.backends.len() - i,
        {
            let ghost next = all.take(i + 1);
            assert(next.drop_last() == all.take(i as int));
            assert(next.last() == self.backends@[i as int]@);
            if self.backends[i].alive {
                let ghost before = texts(hosts@);
                hosts.push(self.backends[i].host.clone());
                assert(texts(hosts@) =~= before.push(self.backends@[i as int].host@));
            }
            i += 1;
        }
        assert(all.take(self.backends.len() as int) == all);
        hosts
    }

    /// Checks what is known of the cluster, and says where to keep it: in the file
    /// `clusters.toml` of the console's directory. It is a failure where the
    /// directory is not known, and where the check fails.
    pub fn save_to_file(&self, config_dir: Result<String, CliError>) -> (r: Result<
        String,
        CliError,
    >)
        ensures
            match cluster_fault(self@) {
                Some(fault) => r is Err && r->Err_0@ == fault,
                None => match config_dir {
                    Ok(dir) => r is Ok && r->Ok_0@ == clusters_file(dir@),
                    Err(e) => r is Err && r->Err_0 == e,
                },
            },
    {
        match self.validate() {
            Err(e) => Err(e),
            Ok(_) => match config_dir {
                Ok(dir) => Ok(join_path(dir.as_str(), "clusters.toml")),
                Err(e) => Err(e),
            },
        }
    }

    /// Checks what is known of the cluster: there is a coordination node, and no
    /// node lacks its host, its version or what identifies it.
    pub fn validate(&self) -> (r: Result<(), CliError>)
        ensures
            crate::error::failure(r) == cluster_fault(self@),
    {
        if self.frontends.len() == 0 {
            return Err(CliError::ConfigError("No frontend nodes found".to_owned()));
        }
        let ghost fs = frontend_views(self.frontends@);
        let mut i: usize = 0;
        while i < self.frontends.len()
            invariant
                i <= self.frontends.len(),
                fs == frontend_views(self.frontends@),
                frontend_faults_from(fs, 0) == frontend_faults_from(fs, i as int),
            decreases self.frontends.len() - i,
        {
            let fe = &self.frontends[i];
            assert(fs[i as int] == fe@);
            if chars_of(fe.host.as_str()).len() == 0 {
                return Err(empty_field_error("Frontend", i, "host"));
            }
            if chars_of(fe.cluster_id.as_str()).len() == 0 {
                return Err(empty_field_error("Frontend", i, "cluster_id"));
            }
            if chars_of(fe.version.as_str()).len() == 0 {
                return Err(empty_field_error("Frontend", i, "version"));
            }
            i += 1;
        }
        let ghost bs = backend_views(self.backends@);
        let mut j: usize = 0;
        while j < self.backends.len()
            invariant
                j <= self.backends.len(),
                bs == backend_views(self.backends@),
                fs == frontend_views(self.frontends@),
                fs.len() > 0,
                frontend_faults_from(fs, 0) is None,
                backend_faults_from(bs, 0) == backend_faults_from(bs, j as int),
            decreases self.backends.len() - j,
        {
            let be = &self.backends[j];
            assert(bs[j as int] == be@);
            if chars_of(be.backend_id.as_str()).len() == 0 {
                return Err(empty_field_error("Backend", j, "backend_id"));
            }
            if chars_of(be.host.as_str()).len() == 0 {
                return Err(empty_field_error("Backend", j, "host"));
            }
            if chars_of(be.version.as_str()).len() == 0 {
                return Err(empty_field_error("Backend", j, "version"));
            }
            j += 1;
        }
        Ok(())
    }

    /// Parses the coordination nodes from the database client's vertical output.
    pub fn parse_frontends_from_output(output: &str) -> (r: Vec<Frontend>)
        ensures
            frontend_views(r@) == frontends_of(blocks_of(output@)),
    {
        let blocks = split_into_blocks(output);
        let mut frontends: Vec<Frontend> = Vec::new();
        let mut i: usize = 0;
        let ghost all = texts(blocks@);
        assert(all.take(0) =~= Seq::<Seq<char>>::empty());
        assert(frontend_views(frontends@) =~= seq![]);
        while i < blocks.len()
            invariant
                i <= blocks.len(),
                all == texts(blocks@),
                frontend_views(frontends@) == frontends_of(all.take(i as int)),
            decreases blocks.len() - i,
        {
            let ghost next = all.take(i + 1);
            assert(next.drop_last() == all.take(i as int));
            assert(next.last() == blocks@[i as int]@);
            match Frontend::parse_from_block(blocks[i].as_str()) {
                Some(fe) => {
                    let ghost before = frontend_views(frontends@);
                    let ghost added = fe@;
                    frontends.push(fe);
                    assert(frontend_views(frontends@) =~= before.push(added));
                },
                None => {},
            }
            i += 1;
        }
        assert(all.take(blocks.len() as int) == all);
        frontends
    }

    /// Parses the storage nodes from the database client's vertical output.
    pub fn parse_backends_from_output(output: &str) -> (r: Vec<Backend>)
        ensures
            backend_views(r@) == backends_of(blocks_of(output@)),
    {
        let blocks = split_into_blocks(output);
        let mut backends: Vec<Backend> = Vec::new();
        let mut i: usize = 0;
        let ghost all = texts(blocks@);
        assert(all.take(0) =~= Seq::<Seq<char>>::empty());
        assert(backend_views(backends@) =~= seq![]);
        while i < blocks.len()
            invariant
                i <= blocks.len(),
                all == texts(blocks@),
                backend_views(backends@) == backends_of(all.take(i as int)),
            decreases blocks.len() - i,
        {
            let ghost next = all.take(i + 1);
            assert(next.drop_last() == all.take(i as int));
            assert(next.last() == blocks@[i as int]@);
            match Backend::parse_from_block(blocks[i].as_str()) {
                Some(be) => {
                    let ghost before = backend_views(backends@);
                    let ghost added = be@;
                    backends.push(be);
                    assert(backend_views(backends@) =~= before.push(added));
                },
                None => {},
            }
            i += 1;
        }
        assert(all.take(blocks.len() as int) == all);
        backends
    }
}

} // verus!
