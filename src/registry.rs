use vstd::prelude::*;
use crate::clients::{ClientHandle, EmbeddingClient, MultimodalClient};
use crate::error::RembedError;
use crate::options::{client_config, opt_text, parse_client_options};
use crate::text::str_eq;

verus! {

/// The registry's contents: each registered name with its client, in the
/// order in which names were first registered.
pub type Entries = Seq<(Seq<char>, ClientHandle)>;

/// Whether no name occurs twice.
pub open spec fn distinct_names(s: Entries) -> bool {
    forall|i: int, j: int| 0 <= i < s.len() && 0 <= j < s.len() && i != j ==> s[i].0 != s[j].0
}

/// Whether `name` is registered.
pub open spec fn has_name(s: Entries, name: Seq<char>) -> bool {
    exists|i: int| 0 <= i < s.len() && s[i].0 == name
}

/// The client registered under `name`.
pub open spec fn client_of(s: Entries, name: Seq<char>) -> Option<ClientHandle> {
    if has_name(s, name) {
        Some(s[choose|i: int| 0 <= i < s.len() && s[i].0 == name].1)
    } else {
        None
    }
}

/// The contents after registering `client` under `name`: it takes the place
/// of the client registered under that name, or comes last.
pub open spec fn put(s: Entries, name: Seq<char>, client: ClientHandle) -> Entries {
    if has_name(s, name) {
        s.update(choose|i: int| 0 <= i < s.len() && s[i].0 == name, (name, client))
    } else {
        s.push((name, client))
    }
}

/// The names, in registry order.
pub open spec fn names_of(s: Entries) -> Seq<Seq<char>> {
    s.map_values(|e: (Seq<char>, ClientHandle)| e.0)
}

/// The process-wide map from client names to clients. Inserting under a name
/// that is taken replaces that client; nothing is ever removed.
pub struct Registry {
    entries: Vec<(String, ClientHandle)>,
}

impl View for Registry {
    type V = Entries;

    closed spec fn view(&self) -> Entries {
        self.entries@.map_values(|e: (String, ClientHandle)| (e.0@, e.1))
    }
}

/// Whether a client embeds texts: a text-embedding client or the mock
/// adapter.
pub open spec fn embeds_text(c: ClientHandle) -> bool {
    c is Embedding || c is Mock
}

/// How a row inserted into the registry gives its client.
pub enum RegistrationValue {
    /// Options as text: JSON, `provider:key`, a provider name or a model.
    Text(String),
    /// A client built beforehand from key/value options.
    Handle(ClientHandle),
    /// Any other value, which gives no client.
    Missing,
}

/// A change asked of the registry's table.
pub enum UpdateOperation {
    Delete,
    Update,
    Insert { name: String, value: RegistrationValue },
}

/// What an insert of text options registers.
pub open spec fn text_client(name: Seq<char>, options: Seq<char>, c: ClientHandle) -> bool {
    match c {
        ClientHandle::Embedding(e) => (e.model@, opt_text(e.api_key)) == client_config(
            name,
            options,
        ),
        _ => false,
    }
}

impl Registry {
    pub open spec fn wf(&self) -> bool {
        distinct_names(self@)
    }

    /// An empty registry.
    pub fn new() -> (r: Self)
        ensures
            r.wf(),
            r@ == Seq::<(Seq<char>, ClientHandle)>::empty(),
    {
        let r = Registry { entries: Vec::new() };
        assert(r@ =~= Seq::<(Seq<char>, ClientHandle)>::empty());
        r
    }

    /// The number of registered names.
    pub fn len(&self) -> (r: usize)
        ensures
            r == self@.len(),
    {
        self.entries.len()
    }

    fn position(&self, name: &str) -> (r: Option<usize>)
        requires
            self.wf(),
        ensures
            match r {
                Some(i) => i < self@.len() && self@[i as int].0 == name@ && has_name(self@, name@)
                    && client_of(self@, name@) == Some(self@[i as int].1),
                None => !has_name(self@, name@) && client_of(self@, name@) is None,
            },
    {
        let mut i: usize = 0;
        while i < self.entries.len()
            invariant
                self.wf(),
                i <= self@.len(),
                self@.len() == self.entries@.len(),
                forall|j: int| 0 <= j < i ==> self@[j].0 != name@,
            decreases self@.len() - i,
        {
            if str_eq(self.entries[i].0.as_str(), name) {
                assert(self@[i as int].0 == name@);
                let ghost k = choose|k: int| 0 <= k < self@.len() && self@[k].0 == name@;
                assert(k == i);
                return Some(i);
            }
            i = i + 1;
        }
        None
    }

    /// The client registered under `name`, if any.
    pub fn get(&self, name: &str) -> (r: Option<&ClientHandle>)
        requires
            self.wf(),
        ensures
            match r {
                Some(c) => client_of(self@, name@) == Some(*c),
                None => client_of(self@, name@) is None,
            },
    {
        match self.position(name) {
            Some(i) => Some(&self.entries[i].1),
            None => None,
        }
    }

    /// The text-embedding client registered under `name`.
    pub fn embedding_client(&self, name: &str) -> (r: Result<&EmbeddingClient, RembedError>)
        requires
            self.wf(),
        ensures
            match client_of(self@, name@) {
                Some(ClientHandle::Embedding(c)) => r is Ok && *r->Ok_0 == c,
                _ => r is Err && r->Err_0.names_unknown_client(name@),
            },
    {
        match self.get(name) {
            Some(ClientHandle::Embedding(c)) => Ok(c),
            _ => Err(RembedError::UnknownClient(String::from_str(name))),
        }
    }

    /// Registers `client` under `name`, replacing the client that held it.
    pub fn insert(&mut self, name: String, client: ClientHandle)
        requires
            old(self).wf(),
        ensures
            final(self).wf(),
            final(self)@ == put(old(self)@, name@, client),
    {
        match self.position(name.as_str()) {
            Some(i) => {
                self.entries.set(i, (name, client));
                assert(self@ =~= put(old(self)@, name@, client));
            },
            None => {
                self.entries.push((name, client));
                assert(self@ =~= put(old(self)@, name@, client));
            },
        }
    }
}

impl Registry {
    /// The client registered under `name` that embeds texts: a
    /// text-embedding client or the mock adapter.
    pub fn text_client(&self, name: &str) -> (r: Result<&ClientHandle, RembedError>)
        requires
            self.wf(),
        ensures
            match client_of(self@, name@) {
                Some(c) => if embeds_text(c) {
                    r is Ok && *r->Ok_0 == c
                } else {
                    r is Err && r->Err_0.names_unknown_client(name@)
                },
                None => r is Err && r->Err_0.names_unknown_client(name@),
            },
    {
        match self.get(name) {
            Some(c) => match c {
                ClientHandle::Multimodal(_) => Err(RembedError::UnknownClient(String::from_str(name))),
                _ => Ok(c),
            },
            None => Err(RembedError::UnknownClient(String::from_str(name))),
        }
    }

    /// The multimodal client registered under `name`.
    pub fn multimodal_client(&self, name: &str) -> (r: Result<&MultimodalClient, RembedError>)
        requires
            self.wf(),
        ensures
            match client_of(self@, name@) {
                Some(ClientHandle::Multimodal(c)) => r is Ok && *r->Ok_0 == c,
                _ => r is Err && match r->Err_0 {
                    RembedError::UnknownMultimodalClient(n) => n@ == name@,
                    _ => false,
                },
            },
    {
        match self.get(name) {
            Some(ClientHandle::Multimodal(c)) => Ok(c),
            _ => Err(RembedError::UnknownMultimodalClient(String::from_str(name))),
        }
    }

    /// The registered names, in registry order.
    pub fn names(&self) -> (r: Vec<String>)
        ensures
            r@.len() == self@.len(),
            forall|i: int| 0 <= i < self@.len() ==> #[trigger] r@[i]@ == self@[i].0,
    {
        let mut out: Vec<String> = Vec::new();
        let mut i: usize = 0;
        while i < self.entries.len()
            invariant
                i <= self@.len(),
                self@.len() == self.entries@.len(),
                out@.len() == i,
                forall|j: int| 0 <= j < i ==> #[trigger] out@[j]@ == self@[j].0,
            decreases self@.len() - i,
        {
            out.push(self.entries[i].0.clone());
            i = i + 1;
        }
        out
    }

    /// Applies a change asked of the registry's table. Only inserts are
    /// taken: text options build a text-embedding client, a handle is
    /// adopted as it is. Deletes, updates and inserts that give no client
    /// fail and leave the registry as it was.
    pub fn update(&mut self, operation: UpdateOperation) -> (r: Result<(), RembedError>)
        requires
            old(self).wf(),
        ensures
            final(self).wf(),
            match operation {
                UpdateOperation::Delete => r is Err && r->Err_0 is UnsupportedOperation
                    && r->Err_0.spec_message()
                    == "DELETE operations on rembed_clients is not supported yet"@ && final(self)@
                    == old(self)@,
                UpdateOperation::Update => r is Err && r->Err_0 is UnsupportedOperation
                    && r->Err_0.spec_message()
                    == "UPDATE operations on rembed_clients is not supported yet"@ && final(self)@
                    == old(self)@,
                UpdateOperation::Insert { name, value } => match value {
                    RegistrationValue::Text(options) => r is Ok && has_name(final(self)@, name@)
                        && text_client(name@, options@, client_of(final(self)@, name@)->Some_0)
                        && final(self)@ == put(
                        old(self)@,
                        name@,
                        client_of(final(self)@, name@)->Some_0,
                    ),
                    RegistrationValue::Handle(h) => r is Ok && final(self)@ == put(
                        old(self)@,
                        name@,
                        h,
                    ),
                    RegistrationValue::Missing => r is Err && r->Err_0 is Configuration
                        && r->Err_0.spec_message() == "client options required"@ && final(self)@
                        == old(self)@,
                },
            },
    {
        match operation {
            UpdateOperation::Delete => Err(
                RembedError::UnsupportedOperation(
                    String::from_str("DELETE operations on rembed_clients is not supported yet"),
                ),
            ),
            UpdateOperation::Update => Err(
                RembedError::UnsupportedOperation(
                    String::from_str("UPDATE operations on rembed_clients is not supported yet"),
                ),
            ),
            UpdateOperation::Insert { name, value } => match value {
                RegistrationValue::Text(options) => {
                    let config = parse_client_options(name.as_str(), options.as_str())?;
                    let client = EmbeddingClient::new(config.model, config.api_key)?;
                    let ghost c = ClientHandle::Embedding(client);
                    self.insert(name, ClientHandle::Embedding(client));
                    proof {
                        lemma_put_found(old(self)@, name@, c);
                    }
                    Ok(())
                },
                RegistrationValue::Handle(h) => {
                    self.insert(name, h);
                    Ok(())
                },
                RegistrationValue::Missing => Err(
                    RembedError::Configuration(String::from_str("client options required")),
                ),
            },
        }
    }
}

/// After registering a client under a name, that name holds that client.
pub proof fn lemma_put_found(s: Entries, name: Seq<char>, client: ClientHandle)
    requires
        distinct_names(s),
    ensures
        distinct_names(put(s, name, client)),
        has_name(put(s, name, client), name),
        client_of(put(s, name, client), name) == Some(client),
        forall|n: Seq<char>| n != name ==> client_of(put(s, name, client), n) == client_of(s, n),
{
    let t = put(s, name, client);
    if has_name(s, name) {
        let k = choose|i: int| 0 <= i < s.len() && s[i].0 == name;
        assert(t[k].0 == name);
        let j = choose|i: int| 0 <= i < t.len() && t[i].0 == name;
        assert(j == k);
    } else {
        assert(t[s.len() as int].0 == name);
        let j = choose|i: int| 0 <= i < t.len() && t[i].0 == name;
        assert(j == s.len());
    }
    assert forall|n: Seq<char>| n != name implies client_of(t, n) == client_of(s, n) by {
        if has_name(s, n) {
            let k = choose|i: int| 0 <= i < s.len() && s[i].0 == n;
            assert(t[k].0 == n);
            let j = choose|i: int| 0 <= i < t.len() && t[i].0 == n;
            assert(j == k);
        } else {
            if has_name(t, n) {
                let j = choose|i: int| 0 <= i < t.len() && t[i].0 == n;
                assert(s[j].0 == n);
            }
        }
    }
}

/// Registering two clients under one name leaves exactly one entry under it,
/// holding the second client; no name occurs twice, and every other name
/// keeps its client.
pub proof fn lemma_register_twice(s: Entries, name: Seq<char>, first: ClientHandle, second: ClientHandle)
    requires
        distinct_names(s),
    ensures
        distinct_names(put(put(s, name, first), name, second)),
        client_of(put(put(s, name, first), name, second), name) == Some(second),
        exists|i: int|
            0 <= i < put(put(s, name, first), name, second).len() && put(
                put(s, name, first),
                name,
                second,
            )[i].0 == name && forall|j: int|
                0 <= j < put(put(s, name, first), name, second).len() && put(
                    put(s, name, first),
                    name,
                    second,
                )[j].0 == name ==> j == i,
        forall|n: Seq<char>|
            n != name ==> client_of(put(put(s, name, first), name, second), n) == client_of(s, n),
{
    lemma_put_found(s, name, first);
    let t = put(s, name, first);
    lemma_put_found(t, name, second);
    let u = put(t, name, second);
    let i = choose|i: int| 0 <= i < u.len() && u[i].0 == name;
    assert(0 <= i < u.len() && u[i].0 == name);
}

/// The description that the options column gives of a client; its
/// configuration, secrets included, is never shown.
pub open spec fn kind_label(c: ClientHandle) -> Seq<char> {
    match c {
        ClientHandle::Embedding(_) => "(embedding client)"@,
        ClientHandle::Multimodal(_) => "(multimodal client)"@,
        ClientHandle::Mock(_) => "(mock client)"@,
    }
}

fn label_of(c: &ClientHandle) -> (r: &'static str)
    ensures
        r@ == kind_label(*c),
{
    match c {
        ClientHandle::Embedding(_) => "(embedding client)",
        ClientHandle::Multimodal(_) => "(multimodal client)",
        ClientHandle::Mock(_) => "(mock client)",
    }
}

/// The columns of the registry's table.
#[derive(Debug, Clone, Copy, PartialEq, Eq, Structural)]
pub enum ClientsColumn {
    Name,
    Options,
}

/// The column at position `index`.
pub fn clients_column(index: i32) -> (r: Option<ClientsColumn>)
    ensures
        index == 0 <==> r == Some(ClientsColumn::Name),
        index == 1 <==> r == Some(ClientsColumn::Options),
        (index != 0 && index != 1) <==> r is None,
{
    match index {
        0 => Some(ClientsColumn::Name),
        1 => Some(ClientsColumn::Options),
        _ => None,
    }
}

/// A scan of the registry: its names and the description of each client,
/// taken when the scan opens, and the position of the current row.
pub struct ClientsCursor {
    rows: Vec<(String, &'static str)>,
    rowid: usize,
}

impl ClientsCursor {
    /// Each row: a name and the description of its client.
    pub closed spec fn rows(&self) -> Seq<(Seq<char>, Seq<char>)> {
        self.rows@.map_values(|r: (String, &'static str)| (r.0@, r.1@))
    }

    /// The position of the current row.
    pub closed spec fn position(&self) -> nat {
        self.rowid as nat
    }

    /// Opens a scan of `registry`, at its first row.
    pub fn new(registry: &Registry) -> (r: Self)
        requires
            registry.wf(),
        ensures
            r.position() == 0,
            r.rows().len() == registry@.len(),
            forall|i: int|
                0 <= i < registry@.len() ==> #[trigger] r.rows()[i] == (
                    registry@[i].0,
                    kind_label(registry@[i].1),
                ),
    {
        let mut rows: Vec<(String, &'static str)> = Vec::new();
        let mut i: usize = 0;
        while i < registry.entries.len()
            invariant
                i <= registry@.len(),
                registry@.len() == registry.entries@.len(),
                rows@.len() == i,
                forall|k: int|
                    0 <= k < i ==> (#[trigger] rows@[k]).0@ == registry@[k].0 && rows@[k].1@
                        == kind_label(registry@[k].1),
            decreases registry@.len() - i,
        {
            let name = registry.entries[i].0.clone();
            let label = label_of(&registry.entries[i].1);
            rows.push((name, label));
            i = i + 1;
        }
        let r = ClientsCursor { rows, rowid: 0 };
        assert forall|k: int| 0 <= k < registry@.len() implies #[trigger] r.rows()[k] == (
            registry@[k].0,
            kind_label(registry@[k].1),
        ) by {
            assert(r.rows@[k].0@ == registry@[k].0);
        }
        r
    }

    /// Moves to the next row.
    pub fn next(&mut self)
        requires
            old(self).position() < usize::MAX,
        ensures
            final(self).rows() == old(self).rows(),
            final(self).position() == old(self).position() + 1,
    {
        self.rowid = self.rowid + 1;
    }

    /// Whether no row is left.
    pub fn eof(&self) -> (r: bool)
        ensures
            r == (self.position() >= self.rows().len()),
    {
        self.rowid >= self.rows.len()
    }

    /// The identity of the current row: its position.
    pub fn rowid(&self) -> (r: i64)
        requires
            self.position() <= i64::MAX,
        ensures
            r == self.position(),
    {
        self.rowid as i64
    }

    /// The value of column `i` in the current row: the name, or the
    /// description of the client; `None` past the last row or for another
    /// column.
    pub fn column(&self, i: i32) -> (r: Option<String>)
        ensures
            self.position() < self.rows().len() && i == 0 ==> r is Some && r->Some_0@ == self.rows()[self.position() as int].0,
            self.position() < self.rows().len() && i == 1 ==> r is Some && r->Some_0@ == self.rows()[self.position() as int].1,
            (self.position() >= self.rows().len() || (i != 0 && i != 1)) ==> r is None,
    {
        if self.rowid >= self.rows.len() {
            return None;
        }
        match clients_column(i) {
            Some(ClientsColumn::Name) => Some(self.rows[self.rowid].0.clone()),
            Some(ClientsColumn::Options) => Some(String::from_str(self.rows[self.rowid].1)),
            None => None,
        }
    }
}

/// A registry holding the client registered by default: `ollama-multimodal`,
/// LLaVA described by Ollama and embedded with nomic.
pub fn default_registry() -> (r: Registry)
    ensures
        r.wf(),
        r@.len() == 1,
        r@[0].0 == "ollama-multimodal"@,
        match r@[0].1 {
            ClientHandle::Multimodal(c) => c.vision_model@ == "ollama::llava:7b"@
                && c.embedding_model@ == "ollama::nomic-embed-text"@,
            _ => false,
        },
{
    let mut r = Registry::new();
    let c = MultimodalClient::new(
        String::from_str("ollama::llava:7b"),
        String::from_str("ollama::nomic-embed-text"),
    );
    match c {
        Ok(c) => {
            r.insert(String::from_str("ollama-multimodal"), ClientHandle::Multimodal(c));
        },
        Err(_) => {},
    }
    proof {
        reveal_strlit("ollama-multimodal");
    }
    r
}

} // verus!
