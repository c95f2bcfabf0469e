//! The sync client's compute half: the command envelopes the endpoint
//! accepts, rendered byte-for-byte as contracts state, and the
//! Authorization header that accompanies them.  Sending the request and
//! reading the response body are the binary's job.

use vstd::prelude::*;
use vstd::string::*;
use crate::text::{escaped, plain_char, quoted};

verus! {

/// The arguments of one add-item command: the target project and the text
/// of the new item.
pub struct AddItemArgs {
    pub project_id: String,
    pub content: String,
}

/// One mutating command: a command-type tag, its arguments, and two
/// identifiers generated fresh per call, which the endpoint uses for
/// idempotency and tracking.
pub struct AddItemCommand {
    pub request_type: String,
    pub args: AddItemArgs,
    pub temp_id: String,
    pub uuid: String,
}

/// The request wrapper sent to the endpoint: a synchronization cursor
/// (always the full-sync sentinel `*` in this client), the requested
/// resource kinds, and zero or one commands.
pub struct SyncRequest {
    pub sync_token: String,
    pub resource_types: Vec<String>,
    pub commands: Vec<AddItemCommand>,
}

impl SyncRequest {
    /// Although the wire format could batch commands, this client never
    /// does: every envelope it builds carries zero or one.
    pub open spec fn wf(self) -> bool {
        self.commands@.len() <= 1
    }
}

/// The JSON object that carries an add-item command's arguments.
pub open spec fn args_json(a: AddItemArgs) -> Seq<char> {
    "{\"project_id\":\""@ + escaped(a.project_id@) + "\",\"content\":\""@ + escaped(a.content@)
        + "\"}"@
}

/// The JSON object that carries one command inside the envelope.
pub open spec fn command_json(c: AddItemCommand) -> Seq<char> {
    "{\"type\":\""@ + escaped(c.request_type@) + "\",\"args\":"@ + args_json(c.args)
        + ",\"temp_id\":\""@ + escaped(c.temp_id@) + "\",\"uuid\":\""@ + escaped(c.uuid@) + "\"}"@
}

/// `parts` run together with commas between them, as inside a JSON array.
pub open spec fn comma_joined(parts: Seq<Seq<char>>) -> Seq<char>
    decreases parts.len(),
{
    if parts.len() == 0 {
        Seq::<char>::empty()
    } else if parts.len() == 1 {
        parts.last()
    } else {
        comma_joined(parts.drop_last()) + ","@ + parts.last()
    }
}

/// The JSON array of the envelope's resource kinds.
pub open spec fn resource_types_json(rts: Seq<Seq<char>>) -> Seq<char> {
    "["@ + comma_joined(rts.map_values(|s: Seq<char>| quoted(s))) + "]"@
}

/// The JSON array of the envelope's commands.
pub open spec fn commands_json(cs: Seq<AddItemCommand>) -> Seq<char> {
    "["@ + comma_joined(cs.map_values(|c: AddItemCommand| command_json(c))) + "]"@
}

/// The whole request body for `r`, exactly as it goes on the wire.
pub open spec fn request_json(r: SyncRequest) -> Seq<char> {
    "{\"sync_token\":\""@ + escaped(r.sync_token@) + "\",\"resource_types\":"@
        + resource_types_json(r.resource_types.deep_view()) + ",\"commands\":"@ + commands_json(
        r.commands@,
    ) + "}"@
}

proof fn lemma_comma_joined_snoc(parts: Seq<Seq<char>>, i: int)
    requires
        0 <= i < parts.len(),
    ensures
        comma_joined(parts.take(i + 1)) == if i == 0 {
            parts[0]
        } else {
            comma_joined(parts.take(i)) + ","@ + parts[i]
        },
{
    assert(parts.take(i + 1).drop_last() =~= parts.take(i));
    assert(parts.take(i + 1).last() == parts[i]);
}

/// The get-user operation's body, closed: an envelope with the full-sync
/// cursor, the single resource kind `user` and no commands renders to this
/// exact text, whatever else the process did.
pub proof fn lemma_get_user_body(r: SyncRequest)
    requires
        r.sync_token@ == "*"@,
        r.resource_types@.len() == 1,
        r.resource_types@[0]@ == "user"@,
        r.commands@.len() == 0,
    ensures
        request_json(r) == "{\"sync_token\":\"*\",\"resource_types\":[\"user\"],\"commands\":[]}"@,
{
    reveal_strlit("*");
    reveal_strlit("user");
    reveal_strlit("\"");
    reveal_strlit("[");
    reveal_strlit("]");
    reveal_strlit(",");
    reveal_strlit("}");
    reveal_strlit("{\"sync_token\":\"");
    reveal_strlit("\",\"resource_types\":");
    reveal_strlit(",\"commands\":");
    reveal_strlit("{\"sync_token\":\"*\",\"resource_types\":[\"user\"],\"commands\":[]}");
    assert(plain_char('*'));
    assert(plain_char('u') && plain_char('s') && plain_char('e') && plain_char('r'));
    crate::text::lemma_escaped_plain("*"@);
    crate::text::lemma_escaped_plain("user"@);
    let rts = r.resource_types.deep_view();
    let parts = rts.map_values(|s: Seq<char>| quoted(s));
    assert(parts.len() == 1);
    assert(parts.last() == quoted("user"@));
    assert(comma_joined(parts) == quoted("user"@));
    let cparts = r.commands@.map_values(|c: AddItemCommand| command_json(c));
    assert(cparts.len() == 0);
    assert(comma_joined(cparts) == Seq::<char>::empty());
    assert(request_json(r) =~= "{\"sync_token\":\"*\",\"resource_types\":[\"user\"],\"commands\":[]}"@);
}

/// The add-item operation's body, closed: an envelope with no resource
/// kinds and exactly one command renders to a body that embeds exactly that
/// command's JSON — the argument object with its project id and text
/// included — and nothing else.
pub proof fn lemma_single_command_body(r: SyncRequest)
    requires
        r.resource_types@.len() == 0,
        r.commands@.len() == 1,
    ensures
        request_json(r) == "{\"sync_token\":\""@ + escaped(r.sync_token@)
            + "\",\"resource_types\":[],\"commands\":["@ + command_json(r.commands@[0]) + "]}"@,
{
    reveal_strlit("[");
    reveal_strlit("]");
    reveal_strlit("}");
    reveal_strlit("{\"sync_token\":\"");
    reveal_strlit("\",\"resource_types\":");
    reveal_strlit(",\"commands\":");
    reveal_strlit("\",\"resource_types\":[],\"commands\":[");
    reveal_strlit("]}");
    let rts = r.resource_types.deep_view();
    let parts = rts.map_values(|s: Seq<char>| quoted(s));
    assert(parts.len() == 0);
    assert(comma_joined(parts) == Seq::<char>::empty());
    let cparts = r.commands@.map_values(|c: AddItemCommand| command_json(c));
    assert(cparts.len() == 1);
    assert(cparts.last() == command_json(r.commands@[0]));
    assert(comma_joined(cparts) == command_json(r.commands@[0]));
    assert(request_json(r) =~= "{\"sync_token\":\""@ + escaped(r.sync_token@)
        + "\",\"resource_types\":[],\"commands\":["@ + command_json(r.commands@[0]) + "]}"@);
}

/// The add-item operation's body in full: for any envelope built around one
/// `item_add` command, the rendered body is this exact text — the project
/// id, the item text and the two identifiers escaped in place, and nothing
/// else in the command list.
#[verifier::rlimit(50)]
pub proof fn lemma_add_item_body(r: SyncRequest)
    requires
        r.resource_types@.len() == 0,
        r.commands@.len() == 1,
        r.commands@[0].request_type@ == "item_add"@,
    ensures
        request_json(r) == "{\"sync_token\":\""@ + escaped(r.sync_token@)
            + "\",\"resource_types\":[],\"commands\":[{\"type\":\"item_add\",\"args\":{\"project_id\":\""@
            + escaped(r.commands@[0].args.project_id@) + "\",\"content\":\""@ + escaped(
            r.commands@[0].args.content@,
        ) + "\"},\"temp_id\":\""@ + escaped(r.commands@[0].temp_id@) + "\",\"uuid\":\""@ + escaped(
            r.commands@[0].uuid@,
        ) + "\"}]}"@,
{
    lemma_single_command_body(r);
    reveal_strlit("item_add");
    reveal_strlit("{\"type\":\"");
    reveal_strlit("\",\"args\":");
    reveal_strlit("{\"project_id\":\"");
    reveal_strlit("\",\"content\":\"");
    reveal_strlit("\"}");
    reveal_strlit(",\"temp_id\":\"");
    reveal_strlit("\",\"uuid\":\"");
    reveal_strlit("\",\"resource_types\":[],\"commands\":[");
    reveal_strlit("]}");
    reveal_strlit("\",\"resource_types\":[],\"commands\":[{\"type\":\"item_add\",\"args\":{\"project_id\":\"");
    reveal_strlit("\"},\"temp_id\":\"");
    reveal_strlit("\"}]}");
    assert(plain_char('i') && plain_char('t') && plain_char('e') && plain_char('m') && plain_char(
        '_',
    ) && plain_char('a') && plain_char('d'));
    crate::text::lemma_escaped_plain("item_add"@);
    assert(request_json(r) =~= "{\"sync_token\":\""@ + escaped(r.sync_token@)
        + "\",\"resource_types\":[],\"commands\":[{\"type\":\"item_add\",\"args\":{\"project_id\":\""@
        + escaped(r.commands@[0].args.project_id@) + "\",\"content\":\""@ + escaped(
        r.commands@[0].args.content@,
    ) + "\"},\"temp_id\":\""@ + escaped(r.commands@[0].temp_id@) + "\",\"uuid\":\""@ + escaped(
        r.commands@[0].uuid@,
    ) + "\"}]}"@);
}

/// `s` rendered as a JSON string literal, quotation marks included.
fn render_quoted(s: &str) -> (out: String)
    ensures
        out@ == quoted(s@),
{
    proof {
        reveal_strlit("\"");
    }
    let mut out: String = "\"".to_owned();
    let esc = crate::text::escape_json(s);
    out.append(esc.as_str());
    out.append("\"");
    proof {
        assert(out@ =~= quoted(s@));
    }
    out
}

/// The resource-kinds array, rendered.
fn render_resource_types(rts: &Vec<String>) -> (out: String)
    ensures
        out@ == resource_types_json(rts.deep_view()),
{
    let ghost parts = rts.deep_view().map_values(|s: Seq<char>| quoted(s));
    proof {
        reveal_strlit("[");
        reveal_strlit(",");
        reveal_strlit("]");
        assert(parts.len() == rts@.len());
    }
    let mut out: String = "[".to_owned();
    let mut i: usize = 0;
    while i < rts.len()
        invariant
            i <= rts@.len(),
            parts == rts.deep_view().map_values(|s: Seq<char>| quoted(s)),
            parts.len() == rts@.len(),
            out@ == "["@ + comma_joined(parts.take(i as int)),
            "["@.len() == 1,
            ","@.len() == 1,
        decreases rts@.len() - i,
    {
        if i > 0 {
            out.append(",");
        }
        let piece = render_quoted(rts[i].as_str());
        out.append(piece.as_str());
        proof {
            assert(parts[i as int] == quoted(rts@[i as int]@));
            lemma_comma_joined_snoc(parts, i as int);
        }
        i = i + 1;
    }
    out.append("]");
    proof {
        assert(parts.take(rts@.len() as int) =~= parts);
    }
    out
}

/// One command, rendered.
fn render_command(c: &AddItemCommand) -> (out: String)
    ensures
        out@ == command_json(*c),
{
    proof {
        reveal_strlit("{\"type\":\"");
        reveal_strlit("\",\"args\":");
        reveal_strlit("{\"project_id\":\"");
        reveal_strlit("\",\"content\":\"");
        reveal_strlit("\"}");
        reveal_strlit(",\"temp_id\":\"");
        reveal_strlit("\",\"uuid\":\"");
    }
    let mut out: String = "{\"type\":\"".to_owned();
    let esc_type = crate::text::escape_json(c.request_type.as_str());
    out.append(esc_type.as_str());
    out.append("\",\"args\":");
    out.append("{\"project_id\":\"");
    let esc_pid = crate::text::escape_json(c.args.project_id.as_str());
    out.append(esc_pid.as_str());
    out.append("\",\"content\":\"");
    let esc_content = crate::text::escape_json(c.args.content.as_str());
    out.append(esc_content.as_str());
    out.append("\"}");
    out.append(",\"temp_id\":\"");
    let esc_temp = crate::text::escape_json(c.temp_id.as_str());
    out.append(esc_temp.as_str());
    out.append("\",\"uuid\":\"");
    let esc_uuid = crate::text::escape_json(c.uuid.as_str());
    out.append(esc_uuid.as_str());
    out.append("\"}");
    proof {
        assert(out@ =~= command_json(*c));
    }
    out
}

/// The command array, rendered.
fn render_commands(cs: &Vec<AddItemCommand>) -> (out: String)
    ensures
        out@ == commands_json(cs@),
{
    let ghost parts = cs@.map_values(|c: AddItemCommand| command_json(c));
    proof {
        reveal_strlit("[");
        reveal_strlit(",");
        reveal_strlit("]");
        assert(parts.len() == cs@.len());
    }
    let mut out: String = "[".to_owned();
    let mut i: usize = 0;
    while i < cs.len()
        invariant
            i <= cs@.len(),
            parts == cs@.map_values(|c: AddItemCommand| command_json(c)),
            parts.len() == cs@.len(),
            out@ == "["@ + comma_joined(parts.take(i as int)),
            "["@.len() == 1,
            ","@.len() == 1,
        decreases cs@.len() - i,
    {
        if i > 0 {
            out.append(",");
        }
        let piece = render_command(&cs[i]);
        out.append(piece.as_str());
        proof {
            assert(parts[i as int] == command_json(cs@[i as int]));
            lemma_comma_joined_snoc(parts, i as int);
        }
        i = i + 1;
    }
    out.append("]");
    proof {
        assert(parts.take(cs@.len() as int) =~= parts);
    }
    out
}

/// Renders the whole envelope into the request body sent on the wire.
pub fn render_request(r: &SyncRequest) -> (out: String)
    ensures
        out@ == request_json(*r),
{
    proof {
        reveal_strlit("{\"sync_token\":\"");
        reveal_strlit("\",\"resource_types\":");
        reveal_strlit(",\"commands\":");
        reveal_strlit("}");
    }
    let mut out: String = "{\"sync_token\":\"".to_owned();
    let esc_token = crate::text::escape_json(r.sync_token.as_str());
    out.append(esc_token.as_str());
    out.append("\",\"resource_types\":");
    let rts = render_resource_types(&r.resource_types);
    out.append(rts.as_str());
    out.append(",\"commands\":");
    let cmds = render_commands(&r.commands);
    out.append(cmds.as_str());
    out.append("}");
    proof {
        assert(out@ =~= request_json(*r));
    }
    out
}

/// Relies on `uuid::Uuid::new_v4` and its `Display` form: a fresh random
/// version-4 identifier in the 36-character hyphenated rendering.  Nothing
/// is promised of the drawn value itself.
#[verifier::external_body]
fn new_uuid_string() -> (r: String)
    ensures
        r@.len() == 36,
{
    uuid::Uuid::new_v4().to_string()
}

/// Two freshly drawn identifiers, always distinct from each other: in the
/// vanishing case that the generator hands the same string twice, the
/// second is distinguished by a suffix, since uniqueness — not shape — is
/// what the endpoint requires of the pair.
pub fn fresh_id_pair() -> (r: (String, String))
    ensures
        r.0@ != r.1@,
        r.0@.len() == 36,
{
    let a = new_uuid_string();
    let mut b = new_uuid_string();
    if a == b {
        proof {
            reveal_strlit("-2");
        }
        b.append("-2");
        proof {
            assert(b@.len() == 38);
        }
    }
    (a, b)
}

/// The envelope of the get-user operation: full-sync cursor, resource kind
/// `user` alone, and no commands.
pub fn get_user_request() -> (r: SyncRequest)
    ensures
        r.wf(),
        r.sync_token@ == "*"@,
        r.resource_types@.len() == 1,
        r.resource_types@[0]@ == "user"@,
        r.commands@.len() == 0,
{
    let mut resource_types: Vec<String> = Vec::new();
    resource_types.push("user".to_owned());
    SyncRequest {
        sync_token: "*".to_owned(),
        resource_types,
        commands: Vec::new(),
    }
}

/// Builds the add-item envelope around a given identifier pair: full-sync
/// cursor, no resource kinds, and exactly one `item_add` command carrying
/// the target project, the item text and the two identifiers.
pub fn add_item_request(
    project_id: String,
    content: String,
    temp_id: String,
    uuid: String,
) -> (r: SyncRequest)
    ensures
        r.wf(),
        r.sync_token@ == "*"@,
        r.resource_types@.len() == 0,
        r.commands@.len() == 1,
        r.commands@[0].request_type@ == "item_add"@,
        r.commands@[0].args.project_id@ == project_id@,
        r.commands@[0].args.content@ == content@,
        r.commands@[0].temp_id@ == temp_id@,
        r.commands@[0].uuid@ == uuid@,
{
    let mut commands: Vec<AddItemCommand> = Vec::new();
    commands.push(
        AddItemCommand {
            request_type: "item_add".to_owned(),
            args: AddItemArgs { project_id, content },
            temp_id,
            uuid,
        },
    );
    SyncRequest { sync_token: "*".to_owned(), resource_types: Vec::new(), commands }
}

/// The add-item operation's envelope for any (project id, text) pair: it
/// holds exactly one command, and that command's two generated identifiers
/// are distinct from each other.
pub fn new_add_item_request(project_id: String, content: String) -> (r: SyncRequest)
    ensures
        r.wf(),
        r.sync_token@ == "*"@,
        r.resource_types@.len() == 0,
        r.commands@.len() == 1,
        r.commands@[0].request_type@ == "item_add"@,
        r.commands@[0].args.project_id@ == project_id@,
        r.commands@[0].args.content@ == content@,
        r.commands@[0].temp_id@ != r.commands@[0].uuid@,
        r.commands@[0].temp_id@.len() == 36,
{
    let ids = fresh_id_pair();
    add_item_request(project_id, content, ids.0, ids.1)
}

/// The Authorization header value that accompanies every request.
pub fn bearer_header(api_key: &str) -> (r: String)
    ensures
        r@ == "Bearer "@ + api_key@,
{
    let mut out: String = "Bearer ".to_owned();
    out.append(api_key);
    out
}

/// The default endpoint, used when no override is given.
pub fn default_sync_url() -> (r: String)
    ensures
        r@ == "https://api.todoist.com/sync/v9/sync"@,
{
    "https://api.todoist.com/sync/v9/sync".to_owned()
}

} // verus!
