use vstd::prelude::*;
use crate::clients::ClientHandle;
use crate::error::{RembedError, ResponseProblem};
use crate::json::{json_text, Json};
use crate::registry::{client_of, embeds_text, Registry};

verus! {

/// The declaration of the batch table: two visible columns and three hidden
/// ones that carry the call's arguments.
pub const CREATE_SQL: &'static str = "CREATE TABLE x(contents, embedding, input1 hidden, input2 hidden, source hidden)";

/// The columns of the batch table, by position.
#[derive(Debug, Clone, Copy, PartialEq, Eq, Structural)]
pub enum BatchColumn {
    Contents,
    Embedding,
    Input1,
    Input2,
    Source,
}

/// The column at position `index`.
pub fn column(index: i32) -> (r: Option<BatchColumn>)
    ensures
        index == 0 <==> r == Some(BatchColumn::Contents),
        index == 1 <==> r == Some(BatchColumn::Embedding),
        index == 2 <==> r == Some(BatchColumn::Input1),
        index == 3 <==> r == Some(BatchColumn::Input2),
        index == 4 <==> r == Some(BatchColumn::Source),
        (index < 0 || index > 4) <==> r is None,
{
    match index {
        0 => Some(BatchColumn::Contents),
        1 => Some(BatchColumn::Embedding),
        2 => Some(BatchColumn::Input1),
        3 => Some(BatchColumn::Input2),
        4 => Some(BatchColumn::Source),
        _ => None,
    }
}

/// A constraint that the planner proposes: its column, whether it can be
/// used, and whether it is an equality.
#[derive(Debug, Clone, Copy)]
pub struct ConstraintInfo {
    pub column: i32,
    pub usable: bool,
    pub is_eq: bool,
}

/// What the table does with one proposed constraint: whether the host may
/// skip checking it, and the argument slot its value goes to (0 for none).
#[derive(Debug, Clone, Copy, PartialEq, Eq, Structural)]
pub struct ConstraintUse {
    pub omit: bool,
    pub argv_index: i32,
}

/// The plan for one scan.
#[derive(Debug)]
pub struct IndexPlan {
    pub uses: Vec<ConstraintUse>,
    pub estimated_cost: u64,
    pub estimated_rows: i64,
    pub idxnum: i32,
}

/// Why a plan cannot be made.
#[derive(Debug, Clone, Copy, PartialEq, Eq, Structural)]
pub enum PlanError {
    /// A constraint on an argument column is not a usable equality.
    Constraint,
    /// No constraint gives the first argument.
    Error,
}

/// The argument slot of a hidden argument column.
pub open spec fn argument_slot(column: i32) -> int {
    if column == 2 {
        1
    } else if column == 3 {
        2
    } else {
        0
    }
}

/// Whether a constraint is on an argument column and is a usable equality.
pub open spec fn binds(c: ConstraintInfo) -> bool {
    argument_slot(c.column) > 0 && c.usable && c.is_eq
}

/// The cost and row estimate, large so that the whole array is served in
/// one scan.
pub const PLAN_ESTIMATE: u64 = 100000;

/// Plans a scan: each usable equality on an argument column is bound to its
/// slot and omitted; any other constraint on an argument column fails, as
/// does a plan in which the first argument is not bound.
pub fn best_index(constraints: &Vec<ConstraintInfo>) -> (r: Result<IndexPlan, PlanError>)
    ensures
        (exists|i: int|
            0 <= i < constraints@.len() && argument_slot(constraints@[i].column) > 0 && !binds(
                #[trigger] constraints@[i],
            )) ==> r == Err::<IndexPlan, PlanError>(PlanError::Constraint),
        (forall|i: int|
            0 <= i < constraints@.len() && argument_slot(constraints@[i].column) > 0 ==> binds(
                #[trigger] constraints@[i],
            )) ==> match r {
            Ok(plan) => (exists|i: int|
                0 <= i < constraints@.len() && #[trigger] constraints@[i].column == 2)
                && plan.uses@.len() == constraints@.len() && (forall|i: int|
                0 <= i < constraints@.len() ==> #[trigger] plan.uses@[i] == (if binds(
                constraints@[i],
            ) {
                ConstraintUse { omit: true, argv_index: argument_slot(constraints@[i].column) as i32 }
            } else {
                ConstraintUse { omit: false, argv_index: 0 }
            })) && plan.estimated_cost == PLAN_ESTIMATE && plan.estimated_rows
                == PLAN_ESTIMATE as i64 && plan.idxnum == 2,
            Err(e) => e == PlanError::Error && forall|i: int|
                0 <= i < constraints@.len() ==> #[trigger] constraints@[i].column != 2,
        },
{
    let mut uses: Vec<ConstraintUse> = Vec::new();
    let mut has_input1 = false;
    let mut i: usize = 0;
    while i < constraints.len()
        invariant
            i <= constraints@.len(),
            uses@.len() == i,
            forall|k: int|
                0 <= k < i && argument_slot(constraints@[k].column) > 0 ==> binds(
                    #[trigger] constraints@[k],
                ),
            forall|k: int|
                0 <= k < i ==> #[trigger] uses@[k] == (if binds(constraints@[k]) {
                    ConstraintUse { omit: true, argv_index: argument_slot(constraints@[k].column) as i32 }
                } else {
                    ConstraintUse { omit: false, argv_index: 0 }
                }),
            has_input1 <==> exists|k: int| 0 <= k < i && #[trigger] constraints@[k].column == 2,
        decreases constraints@.len() - i,
    {
        let c = constraints[i];
        if c.column == 2 || c.column == 3 {
            if c.usable && c.is_eq {
                let slot: i32 = if c.column == 2 {
                    1
                } else {
                    2
                };
                uses.push(ConstraintUse { omit: true, argv_index: slot });
                if c.column == 2 {
                    has_input1 = true;
                }
            } else {
                assert(argument_slot(constraints@[i as int].column) > 0 && !binds(constraints@[i as int]));
                return Err(PlanError::Constraint);
            }
        } else {
            uses.push(ConstraintUse { omit: false, argv_index: 0 });
        }
        i = i + 1;
    }
    if !has_input1 {
        return Err(PlanError::Error);
    }
    Ok(IndexPlan { uses, estimated_cost: PLAN_ESTIMATE, estimated_rows: 100000, idxnum: 2 })
}

/// The text to embed for one item: its `contents` member, a string.
pub open spec fn item_contents(j: Json) -> Option<Seq<char>> {
    match j.member("contents"@) {
        Some(c) => c.text(),
        None => None,
    }
}

/// The items of a batch call given as text: a JSON array whose every
/// element has a string `contents`.
pub open spec fn batch_items(text: Seq<char>) -> Option<Seq<Json>> {
    match json_text(text) {
        Some(Json::Array(xs)) => if forall|i: int|
            0 <= i < xs@.len() ==> (#[trigger] item_contents(xs@[i])) is Some {
            Some(xs@)
        } else {
            None
        },
        _ => None,
    }
}

/// The client name and the JSON array that the bound arguments give: with
/// two arguments, the name then the array; with one, the array, for the
/// client named `default`.
pub open spec fn bound_arguments(args: Seq<String>) -> (Seq<char>, Seq<char>) {
    if args.len() >= 2 {
        (args[0]@, args[1]@)
    } else {
        ("default"@, args[0]@)
    }
}

/// What one scan is to embed: the client, the items as given, and the
/// text of each.
pub struct BatchRequest<'a> {
    pub client: &'a ClientHandle,
    pub items: Vec<Json>,
    pub texts: Vec<String>,
}

/// Reads the bound arguments of a scan: the client must be a registered
/// text-embedding client or mock adapter, and the array a non-empty one of items with string
/// contents.
/// The caller embeds all texts in one multi-item call.
pub fn filter_request<'a>(registry: &'a Registry, args: &Vec<String>) -> (r: Result<BatchRequest<'a>, RembedError>)
    requires
        registry.wf(),
        args@.len() >= 1,
    ensures
        ({
            let (name, input) = bound_arguments(args@);
            match client_of(registry@, name) {
                Some(c) => if !embeds_text(c) {
                    r is Err && r->Err_0.names_unknown_client(name)
                } else {
                    match batch_items(input) {
                    Some(items) => if items.len() == 0 {
                        r is Err && r->Err_0 is EmptyInput
                    } else {
                        r is Ok && *r->Ok_0.client == c && r->Ok_0.items@ == items
                        && r->Ok_0.texts@.len() == items.len() && forall|i: int|
                        0 <= i < items.len() ==> Some(#[trigger] r->Ok_0.texts@[i]@) == item_contents(items[i])
                    },
                    None => r is Err && r->Err_0 is MalformedInput,
                    }
                },
                None => r is Err && r->Err_0.names_unknown_client(name),
            }
        }),
{
    let (name, input): (&str, &str) = if args.len() >= 2 {
        (args[0].as_str(), args[1].as_str())
    } else {
        ("default", args[0].as_str())
    };
    assert((name@, input@) == bound_arguments(args@));
    let client = registry.text_client(name)?;
    let doc = Json::parse(input)?;
    let (items, texts) = items_with_contents(doc)?;
    Ok(BatchRequest { client, items, texts })
}

/// The items of a batch document, with the text of each: the document must
/// be a non-empty array whose every element has a string `contents`.
pub fn items_with_contents(doc: Json) -> (r: Result<(Vec<Json>, Vec<String>), RembedError>)
    ensures
        match doc {
            Json::Array(xs) => if forall|i: int|
                0 <= i < xs@.len() ==> (#[trigger] item_contents(xs@[i])) is Some {
                if xs@.len() == 0 {
                    r is Err && r->Err_0 is EmptyInput
                } else {
                    r is Ok && r->Ok_0.0@ == xs@ && r->Ok_0.1@.len() == xs@.len() && forall|i: int|
                        0 <= i < xs@.len() ==> Some(#[trigger] r->Ok_0.1@[i]@) == item_contents(
                            xs@[i],
                        )
                }
            } else {
                r is Err && r->Err_0 is MalformedInput
            },
            _ => r is Err && r->Err_0 is MalformedInput,
        },
{
    let ghost parsed = doc;
    let items = match doc {
        Json::Array(xs) => xs,
        _ => {
            return Err(RembedError::MalformedInput(String::from_str("expected a JSON array of items")));
        },
    };
    let mut texts: Vec<String> = Vec::new();
    let mut i: usize = 0;
    while i < items.len()
        invariant
            parsed == Json::Array(items),
            parsed == doc,
            i <= items@.len(),
            texts@.len() == i,
            forall|k: int| 0 <= k < i ==> Some(#[trigger] texts@[k]@) == item_contents(items@[k]),
        decreases items@.len() - i,
    {
        let t = match items[i].get_member("contents") {
            Some(c) => c.as_str(),
            None => None,
        };
        match t {
            Some(t) => texts.push(String::from_str(t)),
            None => {
                assert(item_contents(items@[i as int]) is None);
                assert(!(forall|k: int|
                    0 <= k < items@.len() ==> (#[trigger] item_contents(items@[k])) is Some));
                return Err(
                    RembedError::MalformedInput(String::from_str("expected 'contents' text in each item")),
                );
            },
        }
        i = i + 1;
    }
    assert forall|k: int| 0 <= k < items@.len() implies (#[trigger] item_contents(items@[k])) is Some by {
        assert(Some(texts@[k]@) == item_contents(items@[k]));
    }
    if items.len() == 0 {
        return Err(RembedError::EmptyInput);
    }
    Ok((items, texts))
}

/// The rows of a scan: each item with its vector, in input order.
pub open spec fn rows_of<T>(items: Seq<Json>, vectors: Seq<T>) -> Seq<(Json, T)> {
    Seq::new(items.len(), |k: int| (items[k], vectors[k]))
}

/// The state of a scan of the batch table: not yet filtered, or holding one
/// row per item, with the position of the current row.
pub struct BatchCursor<T> {
    items: Vec<Json>,
    vectors: Vec<T>,
    loaded: bool,
    curr: usize,
}

impl<T> BatchCursor<T> {
    /// The rows, once the scan is filtered.
    pub closed spec fn rows(&self) -> Option<Seq<(Json, T)>> {
        if self.loaded {
            Some(rows_of(self.items@, self.vectors@))
        } else {
            None
        }
    }

    /// The position of the current row.
    pub closed spec fn position(&self) -> nat {
        self.curr as nat
    }

    pub closed spec fn wf(&self) -> bool {
        self.loaded ==> self.items@.len() == self.vectors@.len()
    }

    /// A scan that is not yet filtered.
    pub fn new() -> (r: Self)
        ensures
            r.wf(),
            r.rows() is None,
            r.position() == 0,
    {
        BatchCursor { items: Vec::new(), vectors: Vec::new(), loaded: false, curr: 0 }
    }

    /// Takes the vectors that the multi-item call returned for the items, and
    /// starts at the first row. A call that returned another number of
    /// vectors than items fails the scan.
    pub fn load(&mut self, items: Vec<Json>, vectors: Vec<T>) -> (r: Result<(), RembedError>)
        ensures
            final(self).wf(),
            final(self).position() == 0,
            items@.len() == vectors@.len() ==> r is Ok && final(self).rows() == Some(
                rows_of(items@, vectors@),
            ),
            items@.len() != vectors@.len() ==> r is Err && match r->Err_0 {
                RembedError::ProviderResponse { path, problem } => path@ == "embeddings"@
                    && problem == ResponseProblem::WrongCount,
                _ => false,
            } && final(self).rows() is None,
    {
        self.curr = 0;
        if items.len() != vectors.len() {
            self.loaded = false;
            return Err(
                RembedError::ProviderResponse {
                    path: String::from_str("embeddings"),
                    problem: ResponseProblem::WrongCount,
                },
            );
        }
        self.items = items;
        self.vectors = vectors;
        self.loaded = true;
        Ok(())
    }

    /// Moves to the next row.
    pub fn next(&mut self)
        requires
            old(self).wf(),
            old(self).position() < usize::MAX,
        ensures
            final(self).wf(),
            final(self).rows() == old(self).rows(),
            final(self).position() == old(self).position() + 1,
    {
        self.curr = self.curr + 1;
    }

    /// Whether no row is left.
    pub fn eof(&self) -> (r: bool)
        ensures
            r == match self.rows() {
                Some(rows) => self.position() >= rows.len(),
                None => true,
            },
    {
        !self.loaded || self.curr >= self.items.len()
    }

    /// The identity of the current row: its position.
    pub fn rowid(&self) -> (r: i64)
        requires
            self.position() <= i64::MAX,
        ensures
            r == self.position(),
    {
        self.curr as i64
    }

    /// The current row's item as given.
    pub fn item(&self) -> (r: Option<&Json>)
        requires
            self.wf(),
        ensures
            match self.rows() {
                Some(rows) => if self.position() < rows.len() {
                    r is Some && *r->Some_0 == rows[self.position() as int].0
                } else {
                    r is None
                },
                None => r is None,
            },
    {
        if self.loaded && self.curr < self.items.len() {
            Some(&self.items[self.curr])
        } else {
            None
        }
    }

    /// The current row's text, from its item's `contents`.
    pub fn contents(&self) -> (r: Option<&str>)
        requires
            self.wf(),
        ensures
            match self.rows() {
                Some(rows) => if self.position() < rows.len() {
                    match r {
                        Some(t) => item_contents(rows[self.position() as int].0) == Some(t@),
                        None => item_contents(rows[self.position() as int].0) is None,
                    }
                } else {
                    r is None
                },
                None => r is None,
            },
    {
        match self.item() {
            Some(j) => match j.get_member("contents") {
                Some(c) => c.as_str(),
                None => None,
            },
            None => None,
        }
    }

    /// The current row's vector.
    pub fn embedding(&self) -> (r: Option<&T>)
        requires
            self.wf(),
        ensures
            match self.rows() {
                Some(rows) => if self.position() < rows.len() {
                    r is Some && *r->Some_0 == rows[self.position() as int].1
                } else {
                    r is None
                },
                None => r is None,
            },
    {
        if self.loaded && self.curr < self.vectors.len() {
            Some(&self.vectors[self.curr])
        } else {
            None
        }
    }
}

/// A scan yields one row per item of its input array, in input order, each
/// with the vector returned at that item's position.
pub proof fn lemma_one_row_per_item<T>(input: Seq<char>, items: Seq<Json>, vectors: Seq<T>)
    requires
        batch_items(input) == Some(items),
        vectors.len() == items.len(),
    ensures
        rows_of(items, vectors).len() == batch_items(input)->Some_0.len(),
        forall|k: int|
            0 <= k < items.len() ==> #[trigger] rows_of(items, vectors)[k] == (
                batch_items(input)->Some_0[k],
                vectors[k],
            ),
{
}

/// Whether one of `pairs` carries position `k`.
pub open spec fn names_position<T>(pairs: Seq<(usize, T)>, k: int) -> bool {
    exists|i: int| 0 <= i < pairs.len() && (#[trigger] pairs[i]).0 == k
}

/// Whether the positions of `pairs` name each of `0..n` exactly once.
pub open spec fn is_placement<T>(pairs: Seq<(usize, T)>, n: nat) -> bool {
    &&& pairs.len() == n
    &&& forall|i: int| 0 <= i < pairs.len() ==> (#[trigger] pairs[i]).0 < n
    &&& forall|i: int, j: int|
        0 <= i < pairs.len() && 0 <= j < pairs.len() && i != j ==> (#[trigger] pairs[i]).0 != (
        #[trigger] pairs[j]).0
    &&& forall|k: int| 0 <= k < n ==> #[trigger] names_position(pairs, k)
}

fn wrong_count() -> (e: RembedError)
    ensures
        match e {
            RembedError::ProviderResponse { path, problem } => path@ == "embeddings"@ && problem
                == ResponseProblem::WrongCount,
            _ => false,
        },
{
    RembedError::ProviderResponse { path: String::from_str("embeddings"), problem: ResponseProblem::WrongCount }
}

/// Puts the vectors of a multi-item call, each tagged with the position of
/// its item, back into input order: the vector tagged `k` comes `k`-th.
/// Positions that do not name each of the `n` items once fail.
pub fn reorder_by_index<T>(pairs: Vec<(usize, T)>, n: usize) -> (r: Result<Vec<T>, RembedError>)
    ensures
        is_placement(pairs@, n as nat) ==> r is Ok && r->Ok_0@.len() == n && forall|i: int|
            0 <= i < n ==> #[trigger] r->Ok_0@[pairs@[i].0 as int] == pairs@[i].1,
        !is_placement(pairs@, n as nat) ==> r is Err && match r->Err_0 {
            RembedError::ProviderResponse { path, problem } => path@ == "embeddings"@ && problem
                == ResponseProblem::WrongCount,
            _ => false,
        },
{
    let ghost all = pairs@;
    if pairs.len() != n {
        return Err(wrong_count());
    }
    let mut slots: Vec<Option<T>> = Vec::new();
    let mut i: usize = 0;
    while i < n
        invariant
            i <= n,
            slots@.len() == i,
            forall|k: int| 0 <= k < i ==> slots@[k] is None,
        decreases n - i,
    {
        slots.push(None);
        i = i + 1;
    }
    let mut rest = pairs;
    while rest.len() > 0
        invariant
            all == pairs@,
            all.len() == n,
            slots@.len() == n,
            rest@.len() <= n,
            rest@ == all.subrange(0, rest@.len() as int),
            forall|j: int| rest@.len() <= j < n ==> (#[trigger] all[j]).0 < n,
            forall|j: int, l: int|
                rest@.len() <= j < n && rest@.len() <= l < n && j != l ==> (#[trigger] all[j]).0
                    != (#[trigger] all[l]).0,
            forall|j: int| rest@.len() <= j < n ==> slots@[(#[trigger] all[j]).0 as int] == Some(all[j].1),
            forall|k: int|
                0 <= k < n && slots@[k] is Some ==> exists|j: int|
                    rest@.len() <= j < n && (#[trigger] all[j]).0 == k,
        decreases rest@.len(),
    {
        let m = rest.len() - 1;
        let (k, v) = rest.pop().unwrap();
        assert(all[m as int] == (k, v));
        if k >= n {
            assert(!is_placement(all, n as nat));
            return Err(wrong_count());
        }
        match &slots[k] {
            Some(_) => {
                let ghost j = choose|j: int| m < j < n && (#[trigger] all[j]).0 == k;
                assert(all[j].0 == all[m as int].0);
                assert(!is_placement(all, n as nat));
                return Err(wrong_count());
            },
            None => {},
        }
        slots.set(k, Some(v));
        assert forall|k2: int|
            0 <= k2 < n && slots@[k2] is Some implies exists|j: int|
                m <= j < n && (#[trigger] all[j]).0 == k2 by {
            if k2 == k {
                assert(all[m as int].0 == k2);
            } else {
                let j = choose|j: int| m + 1 <= j < n && (#[trigger] all[j]).0 == k2;
                assert(m <= j);
            }
        }
    }
    let ghost filled = slots@;
    assert forall|k2: int| 0 <= k2 < n && filled[k2] is Some implies #[trigger] names_position(all, k2) by {
        let j = choose|j: int| 0 <= j < n && (#[trigger] all[j]).0 == k2;
        assert(0 <= j < all.len() && all[j].0 == k2);
    }
    let mut rev: Vec<Option<T>> = Vec::new();
    while slots.len() > 0
        invariant
            all == pairs@,
            all.len() == n,
            filled.len() == n,
            slots@.len() <= n,
            slots@ == filled.subrange(0, slots@.len() as int),
            forall|j: int| 0 <= j < n ==> (#[trigger] all[j]).0 < n,
            forall|j: int, l: int|
                0 <= j < n && 0 <= l < n && j != l ==> (#[trigger] all[j]).0 != (#[trigger] all[l]).0,
            forall|j: int| 0 <= j < n ==> filled[(#[trigger] all[j]).0 as int] == Some(all[j].1),
            forall|k2: int| 0 <= k2 < n && filled[k2] is Some ==> #[trigger] names_position(all, k2),
            rev@.len() + slots@.len() == n,
            forall|j: int| 0 <= j < rev@.len() ==> #[trigger] rev@[j] == filled[n - 1 - j],
        decreases slots@.len(),
    {
        let s = slots.pop().unwrap();
        rev.push(s);
    }
    let mut out: Vec<T> = Vec::new();
    let mut k: usize = 0;
    while k < n
        invariant
            all == pairs@,
            all.len() == n,
            filled.len() == n,
            k <= n,
            forall|j: int, l: int|
                0 <= j < n && 0 <= l < n && j != l ==> (#[trigger] all[j]).0 != (#[trigger] all[l]).0,
            rev@.len() == n - k,
            forall|j: int| 0 <= j < rev@.len() ==> #[trigger] rev@[j] == filled[n - 1 - j],
            forall|j: int| 0 <= j < n ==> (#[trigger] all[j]).0 < n,
            forall|j: int| 0 <= j < n ==> filled[(#[trigger] all[j]).0 as int] == Some(all[j].1),
            forall|k2: int| 0 <= k2 < n && filled[k2] is Some ==> #[trigger] names_position(all, k2),
            out@.len() == k,
            forall|j: int| 0 <= j < k ==> filled[j] == Some(#[trigger] out@[j]),
        decreases n - k,
    {
        let s = rev.pop().unwrap();
        assert(s == filled[k as int]);
        match s {
            Some(v) => {
                out.push(v);
            },
            None => {
                assert(!names_position(all, k as int)) by {
                    if names_position(all, k as int) {
                        let j = choose|j: int| 0 <= j < all.len() && (#[trigger] all[j]).0 == k;
                        assert(filled[all[j].0 as int] is Some);
                    }
                }
                assert(!is_placement(all, n as nat));
                return Err(wrong_count());
            },
        }
        k = k + 1;
    }
    assert forall|k2: int| 0 <= k2 < n implies #[trigger] names_position(all, k2) by {
        assert(filled[k2] == Some(out@[k2]));
    }
    assert(is_placement(all, n as nat));
    assert forall|i: int| 0 <= i < n implies #[trigger] out@[all[i].0 as int] == all[i].1 by {
        assert(filled[all[i].0 as int] == Some(out@[all[i].0 as int]));
    }
    Ok(out)
}

} // verus!
