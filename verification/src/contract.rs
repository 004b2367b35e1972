//! The registry's engines: initialization, the authorization-gated mutating
//! operations, and the open read operations. Each takes the store as an
//! explicit handle; the host commits or discards the resulting state
//! atomically per request.

use vstd::prelude::*;
use crate::decimal::{dec_str, u64_to_string};
use crate::error::ContractError;
use crate::msg::{
    Attribute, BankMsg, Coin, EntryResponse, ExecuteMsg, HostInput, InstantiateMsg, ListResponse,
    MessageInfo, QueryMsg, QueryResponse, Response,
};
use crate::state::{Config, Entry, Priority, Status, Store};

verus! {

/// The owner identity initialization settles on: the supplied one when the
/// host accepted it as well-formed, else the initiating caller.
pub open spec fn chosen_owner(supplied: Option<String>, supplied_valid: bool, sender: String) -> String {
    match supplied {
        Some(o) => if supplied_valid {
            o
        } else {
            sender
        },
        None => sender,
    }
}

/// The response carries exactly the two given attribute pairs and no
/// outbound instruction.
pub open spec fn two_attrs(
    res: Response,
    k0: Seq<char>,
    v0: Seq<char>,
    k1: Seq<char>,
    v1: Seq<char>,
) -> bool {
    &&& res.attributes@.len() == 2
    &&& res.attributes@[0].key@ == k0
    &&& res.attributes@[0].value@ == v0
    &&& res.attributes@[1].key@ == k1
    &&& res.attributes@[1].value@ == v1
    &&& res.messages@ == Seq::<BankMsg>::empty()
}

/// What initialization establishes: an empty registry, the counter at 0, and
/// the chosen owner, reported in the attributes.
pub open spec fn instantiate_spec(
    info: MessageInfo,
    msg: InstantiateMsg,
    owner_valid: bool,
    store: Store,
    res: Response,
) -> bool {
    &&& store.wf()
    &&& store.entry_seq == 0
    &&& store.entries@ == Seq::<Entry>::empty()
    &&& store.config.owner == chosen_owner(msg.owner, owner_valid, info.sender)
    &&& two_attrs(
        res,
        "method"@,
        "instantiate"@,
        "owner"@,
        chosen_owner(msg.owner, owner_valid, info.sender)@,
    )
}

/// Establishes the registry: saves the chosen owner and starts the entry
/// counter at 0. `owner_valid` is the host's verdict on the supplied owner
/// identity (ignored when none was supplied).
pub fn instantiate(info: MessageInfo, msg: InstantiateMsg, owner_valid: bool) -> (r: (
    Store,
    Response,
))
    ensures
        instantiate_spec(info, msg, owner_valid, r.0, r.1),
{
    let owner = match msg.owner {
        Some(o) => if owner_valid {
            o
        } else {
            info.sender
        },
        None => info.sender,
    };
    let mut attributes: Vec<Attribute> = Vec::new();
    attributes.push(Attribute { key: "method".to_owned(), value: "instantiate".to_owned() });
    attributes.push(Attribute { key: "owner".to_owned(), value: owner.clone() });
    let store = Store { config: Config { owner }, entry_seq: 0, entries: Vec::new() };
    let res = Response { attributes, messages: Vec::new() };
    (store, res)
}

/// The authorization guard every mutating operation applies first: the
/// caller must be the stored owner.
pub open spec fn authorized(s: Store, sender: String) -> bool {
    sender@ == s.config.owner@
}

/// What a create does: for the owner it allocates the next id, stores a fresh
/// `ToDo` entry (priority defaulting to `High`) under it and reports the id;
/// for anyone else it fails `Unauthorized` and changes nothing.
pub open spec fn create_spec(
    pre: Store,
    post: Store,
    sender: String,
    description: String,
    priority: Option<Priority>,
    r: Result<Response, ContractError>,
) -> bool {
    if !authorized(pre, sender) {
        &&& r == Err::<Response, ContractError>(ContractError::Unauthorized)
        &&& post == pre
    } else {
        &&& post.config == pre.config
        &&& post.entry_seq == pre.entry_seq + 1
        &&& post.entries@ == pre.entries@.push(
            Entry {
                id: (pre.entry_seq + 1) as u64,
                description,
                status: Status::ToDo,
                priority: match priority {
                    Some(p) => p,
                    None => Priority::High,
                },
            },
        )
        &&& r matches Ok(res) && two_attrs(
            res,
            "method"@,
            "execute_create_new_entry"@,
            "id"@,
            dec_str((pre.entry_seq + 1) as nat),
        )
    }
}

/// Creates a new entry: allocates the next id from the counter, stores the
/// entry with status `ToDo` and the supplied (or default `High`) priority.
pub fn execute_create_new_entry(
    store: &mut Store,
    info: MessageInfo,
    description: String,
    priority: Option<Priority>,
) -> (r: Result<Response, ContractError>)
    requires
        old(store).wf(),
        old(store).entry_seq < u64::MAX,
    ensures
        final(store).wf(),
        create_spec(*old(store), *final(store), info.sender, description, priority, r),
{
    if info.sender != store.config.owner {
        return Err(ContractError::Unauthorized);
    }
    let id = store.entry_seq + 1;
    store.entry_seq = id;
    let entry = Entry {
        id,
        description,
        status: Status::ToDo,
        priority: match priority {
            Some(p) => p,
            None => Priority::High,
        },
    };
    store.entries.push(entry);
    let mut attributes: Vec<Attribute> = Vec::new();
    attributes.push(
        Attribute { key: "method".to_owned(), value: "execute_create_new_entry".to_owned() },
    );
    attributes.push(Attribute { key: "id".to_owned(), value: u64_to_string(id) });
    Ok(Response { attributes, messages: Vec::new() })
}

/// Linear scan for the index holding `id`.
fn find_entry_idx(entries: &Vec<Entry>, id: u64) -> (r: Option<usize>)
    ensures
        match r {
            Some(i) => i < entries@.len() && entries@[i as int].id == id,
            None => !crate::state::has_id(entries@, id),
        },
{
    let mut i: usize = 0;
    while i < entries.len()
        invariant
            i <= entries@.len(),
            forall|j: int| 0 <= j < i ==> (#[trigger] entries@[j]).id != id,
        decreases entries@.len() - i,
    {
        if entries[i].id == id {
            return Some(i);
        }
        i = i + 1;
    }
    None
}

/// What a partial update does: for the owner and a live id it merges the
/// supplied fields into the stored entry (omitted fields keep their value,
/// the id never changes) and re-saves it in place; a missing id fails
/// `NotFound`, another caller fails `Unauthorized`; failures change nothing.
pub open spec fn update_spec(
    pre: Store,
    post: Store,
    sender: String,
    id: u64,
    description: Option<String>,
    status: Option<Status>,
    priority: Option<Priority>,
    r: Result<Response, ContractError>,
) -> bool {
    if !authorized(pre, sender) {
        &&& r == Err::<Response, ContractError>(ContractError::Unauthorized)
        &&& post == pre
    } else if !crate::state::has_id(pre.entries@, id) {
        &&& r == Err::<Response, ContractError>(ContractError::NotFound)
        &&& post == pre
    } else {
        &&& post.config == pre.config
        &&& post.entry_seq == pre.entry_seq
        &&& post.entries@ == crate::state::update_result(pre.entries@, id, description, status, priority)
        &&& r matches Ok(res) && two_attrs(
            res,
            "method"@,
            "execute_update_entry"@,
            "id"@,
            dec_str(id as nat),
        )
    }
}

/// Partially updates the entry with the given id: supplied fields replace the
/// stored ones, omitted fields stay; the id itself is immutable.
pub fn execute_update_entry(
    store: &mut Store,
    info: MessageInfo,
    id: u64,
    description: Option<String>,
    status: Option<Status>,
    priority: Option<Priority>,
) -> (r: Result<Response, ContractError>)
    requires
        old(store).wf(),
    ensures
        final(store).wf(),
        update_spec(*old(store), *final(store), info.sender, id, description, status, priority, r),
{
    if info.sender != store.config.owner {
        return Err(ContractError::Unauthorized);
    }
    let i = match find_entry_idx(&store.entries, id) {
        Some(i) => i,
        None => {
            return Err(ContractError::NotFound);
        },
    };
    proof {
        crate::state::lemma_sorted_id_index_unique(
            store.entries@,
            i as int,
            crate::state::idx_of_id(store.entries@, id),
        );
    }
    let stored = store.entries.remove(i);
    let merged = Entry {
        id,
        description: match description {
            Some(d) => d,
            None => stored.description,
        },
        status: match status {
            Some(st) => st,
            None => stored.status,
        },
        priority: match priority {
            Some(p) => p,
            None => stored.priority,
        },
    };
    store.entries.insert(i, merged);
    proof {
        assert(store.entries@ =~= crate::state::update_result(
            old(store).entries@,
            id,
            description,
            status,
            priority,
        ));
    }
    let mut attributes: Vec<Attribute> = Vec::new();
    attributes.push(
        Attribute { key: "method".to_owned(), value: "execute_update_entry".to_owned() },
    );
    attributes.push(Attribute { key: "id".to_owned(), value: u64_to_string(id) });
    Ok(Response { attributes, messages: Vec::new() })
}

/// What a delete does: for the owner it removes the entry with the given id,
/// silently succeeding when the id is absent; another caller fails
/// `Unauthorized` and changes nothing.
pub open spec fn delete_spec(
    pre: Store,
    post: Store,
    sender: String,
    id: u64,
    r: Result<Response, ContractError>,
) -> bool {
    if !authorized(pre, sender) {
        &&& r == Err::<Response, ContractError>(ContractError::Unauthorized)
        &&& post == pre
    } else {
        &&& post.config == pre.config
        &&& post.entry_seq == pre.entry_seq
        &&& post.entries@ == crate::state::delete_result(pre.entries@, id)
        &&& r matches Ok(res) && two_attrs(
            res,
            "method"@,
            "execute_delete_entry"@,
            "id"@,
            dec_str(id as nat),
        )
    }
}

/// Removes the entry with the given id. Deleting an id that is not live is a
/// silent no-op, not an error.
pub fn execute_delete_entry(store: &mut Store, info: MessageInfo, id: u64) -> (r: Result<
    Response,
    ContractError,
>)
    requires
        old(store).wf(),
    ensures
        final(store).wf(),
        delete_spec(*old(store), *final(store), info.sender, id, r),
{
    if info.sender != store.config.owner {
        return Err(ContractError::Unauthorized);
    }
    match find_entry_idx(&store.entries, id) {
        Some(i) => {
            proof {
                crate::state::lemma_sorted_id_index_unique(
                    store.entries@,
                    i as int,
                    crate::state::idx_of_id(store.entries@, id),
                );
            }
            store.entries.remove(i);
        },
        None => {},
    }
    let mut attributes: Vec<Attribute> = Vec::new();
    attributes.push(
        Attribute { key: "method".to_owned(), value: "execute_delete_entry".to_owned() },
    );
    attributes.push(Attribute { key: "id".to_owned(), value: u64_to_string(id) });
    Ok(Response { attributes, messages: Vec::new() })
}

/// What an ownership transfer does: the current owner hands control to a
/// well-formed identity, effective for all later requests; a malformed target
/// fails `InvalidAddress`, another caller fails `Unauthorized`; failures
/// change nothing. `new_owner_valid` is the host's verdict on the target.
pub open spec fn transfer_spec(
    pre: Store,
    post: Store,
    sender: String,
    new_owner: String,
    new_owner_valid: bool,
    r: Result<Response, ContractError>,
) -> bool {
    if !authorized(pre, sender) {
        &&& r == Err::<Response, ContractError>(ContractError::Unauthorized)
        &&& post == pre
    } else if !new_owner_valid {
        &&& r == Err::<Response, ContractError>(ContractError::InvalidAddress)
        &&& post == pre
    } else {
        &&& post.config.owner == new_owner
        &&& post.entry_seq == pre.entry_seq
        &&& post.entries@ == pre.entries@
        &&& r matches Ok(res) && two_attrs(
            res,
            "method"@,
            "execute_transfer_owner"@,
            "new_owner"@,
            new_owner@,
        )
    }
}

/// Transfers ownership of the registry. The call itself is still gated on the
/// old owner; the new owner holds for every later request.
pub fn execute_transfer_owner(
    store: &mut Store,
    info: MessageInfo,
    new_owner: String,
    new_owner_valid: bool,
) -> (r: Result<Response, ContractError>)
    requires
        old(store).wf(),
    ensures
        final(store).wf(),
        transfer_spec(*old(store), *final(store), info.sender, new_owner, new_owner_valid, r),
{
    if info.sender != store.config.owner {
        return Err(ContractError::Unauthorized);
    }
    if !new_owner_valid {
        return Err(ContractError::InvalidAddress);
    }
    let mut attributes: Vec<Attribute> = Vec::new();
    attributes.push(
        Attribute { key: "method".to_owned(), value: "execute_transfer_owner".to_owned() },
    );
    attributes.push(Attribute { key: "new_owner".to_owned(), value: new_owner.clone() });
    store.config.owner = new_owner;
    Ok(Response { attributes, messages: Vec::new() })
}

/// What a balance sweep does: for the owner it emits exactly one outbound
/// burn instruction covering the contract's whole queried balance set (even
/// when that set is empty) and mutates no local state; another caller fails
/// `Unauthorized`. `balances` is the host ledger's answer at call time.
pub open spec fn burn_spec(
    pre: Store,
    post: Store,
    sender: String,
    balances: Vec<Coin>,
    r: Result<Response, ContractError>,
) -> bool {
    &&& post == pre
    &&& if !authorized(pre, sender) {
        r == Err::<Response, ContractError>(ContractError::Unauthorized)
    } else {
        r matches Ok(res) && {
            &&& res.attributes@.len() == 1
            &&& res.attributes@[0].key@ == "method"@
            &&& res.attributes@[0].value@ == "try_burn_balance"@
            &&& res.messages@ == seq![BankMsg::Burn { amount: balances }]
        }
    }
}

/// Sweeps the contract's own held funds: emits a single instruction telling
/// the host to burn the entire balance set it reported. Local state is read
/// only for the authorization gate.
pub fn execute_burn_balance(store: &mut Store, info: MessageInfo, balances: Vec<Coin>) -> (r:
    Result<Response, ContractError>)
    requires
        old(store).wf(),
    ensures
        final(store).wf(),
        burn_spec(*old(store), *final(store), info.sender, balances, r),
{
    if info.sender != store.config.owner {
        return Err(ContractError::Unauthorized);
    }
    let mut attributes: Vec<Attribute> = Vec::new();
    attributes.push(Attribute { key: "method".to_owned(), value: "try_burn_balance".to_owned() });
    let mut messages: Vec<BankMsg> = Vec::new();
    messages.push(BankMsg::Burn { amount: balances });
    Ok(Response { attributes, messages })
}

/// Routes one mutating request to its engine. Every variant is gated on the
/// stored owner: a call from anyone else fails `Unauthorized` and leaves the
/// state untouched.
pub fn execute(store: &mut Store, info: MessageInfo, msg: ExecuteMsg, host: HostInput) -> (r:
    Result<Response, ContractError>)
    requires
        old(store).wf(),
        msg matches ExecuteMsg::NewEntry { .. } ==> old(store).entry_seq < u64::MAX,
    ensures
        final(store).wf(),
        match msg {
            ExecuteMsg::NewEntry { description, priority } => create_spec(
                *old(store),
                *final(store),
                info.sender,
                description,
                priority,
                r,
            ),
            ExecuteMsg::UpdateEntry { id, description, status, priority } => update_spec(
                *old(store),
                *final(store),
                info.sender,
                id,
                description,
                status,
                priority,
                r,
            ),
            ExecuteMsg::DeleteEntry { id } => delete_spec(
                *old(store),
                *final(store),
                info.sender,
                id,
                r,
            ),
            ExecuteMsg::TransferContractOwnership { new_owner } => transfer_spec(
                *old(store),
                *final(store),
                info.sender,
                new_owner,
                host.new_owner_valid,
                r,
            ),
            ExecuteMsg::BurnContractBalance {  } => burn_spec(
                *old(store),
                *final(store),
                info.sender,
                host.balances,
                r,
            ),
        },
        !authorized(*old(store), info.sender) ==> r == Err::<Response, ContractError>(
            ContractError::Unauthorized,
        ) && *final(store) == *old(store),
{
    match msg {
        ExecuteMsg::NewEntry { description, priority } => execute_create_new_entry(
            store,
            info,
            description,
            priority,
        ),
        ExecuteMsg::UpdateEntry { id, description, status, priority } => execute_update_entry(
            store,
            info,
            id,
            description,
            status,
            priority,
        ),
        ExecuteMsg::DeleteEntry { id } => execute_delete_entry(store, info, id),
        ExecuteMsg::TransferContractOwnership { new_owner } => execute_transfer_owner(
            store,
            info,
            new_owner,
            host.new_owner_valid,
        ),
        ExecuteMsg::BurnContractBalance {  } => execute_burn_balance(store, info, host.balances),
    }
}

/// The read report matches the stored entry field for field.
pub open spec fn entry_response_for(resp: EntryResponse, e: Entry) -> bool {
    &&& resp.id == e.id
    &&& resp.description == e.description
    &&& resp.status == e.status
    &&& resp.priority == e.priority
}

/// Looks up a single entry by id. Open to anyone.
pub fn query_entry(store: &Store, id: u64) -> (r: Result<EntryResponse, ContractError>)
    requires
        store.wf(),
    ensures
        (r is Ok) == crate::state::has_id(store.entries@, id),
        r matches Ok(resp) ==> entry_response_for(
            resp,
            crate::state::entry_of_id(store.entries@, id),
        ),
        r matches Err(e) ==> e == ContractError::NotFound,
{
    match find_entry_idx(&store.entries, id) {
        Some(i) => {
            proof {
                crate::state::lemma_sorted_id_index_unique(
                    store.entries@,
                    i as int,
                    crate::state::idx_of_id(store.entries@, id),
                );
            }
            let e = &store.entries[i];
            Ok(
                EntryResponse {
                    id: e.id,
                    description: e.description.clone(),
                    status: e.status,
                    priority: e.priority,
                },
            )
        },
        None => Err(ContractError::NotFound),
    }
}

/// The exclusive lower id bound of a list query: entries at or below it are
/// skipped. Naming no bound skips nothing (ids start at 1).
pub open spec fn cutoff(start_after: Option<u64>) -> u64 {
    match start_after {
        Some(a) => a,
        None => 0,
    }
}

/// The clamped page size of a list query.
pub open spec fn effective_limit(limit: Option<u32>) -> u32 {
    let l = match limit {
        Some(l) => l,
        None => crate::state::DEFAULT_LIMIT,
    };
    if l < crate::state::MAX_LIMIT {
        l
    } else {
        crate::state::MAX_LIMIT
    }
}

/// What a list query returns: the page of up to `effective_limit` entries
/// that begins strictly after the cutoff, in stored (ascending id) order.
pub open spec fn list_spec(
    s: Seq<Entry>,
    start_after: Option<u64>,
    limit: Option<u32>,
    lr: ListResponse,
) -> bool {
    let k = crate::state::first_above(s, cutoff(start_after));
    let l = if (effective_limit(limit) as int) < s.len() - k {
        effective_limit(limit) as int
    } else {
        s.len() - k
    };
    lr.entries@ == s.subrange(k, k + l)
}

/// Pages through the entries ascending by id: at most the clamped limit of
/// entries, beginning strictly after `start_after`. Open to anyone; an empty
/// page is a valid answer.
pub fn query_list(store: &Store, start_after: Option<u64>, limit: Option<u32>) -> (r: ListResponse)
    requires
        store.wf(),
    ensures
        list_spec(store.entries@, start_after, limit, r),
        r.entries@.len() <= effective_limit(limit),
        forall|i: int|
            0 <= i < r.entries@.len() ==> (#[trigger] r.entries@[i]).id > cutoff(start_after),
        crate::state::sorted_by_id(r.entries@),
{
    let bound = match start_after {
        Some(a) => a,
        None => 0,
    };
    let l = match limit {
        Some(l) => l,
        None => crate::state::DEFAULT_LIMIT,
    };
    let clamped = if l < crate::state::MAX_LIMIT {
        l
    } else {
        crate::state::MAX_LIMIT
    };
    let lim = clamped as usize;
    let ghost s = store.entries@;
    let mut k: usize = 0;
    while k < store.entries.len() && store.entries[k].id <= bound
        invariant
            k <= s.len(),
            s == store.entries@,
            forall|j: int| 0 <= j < k ==> (#[trigger] s[j]).id <= bound,
        decreases s.len() - k,
    {
        k = k + 1;
    }
    proof {
        crate::state::lemma_first_above_is_scan(s, bound, k as int);
    }
    let mut entries: Vec<Entry> = Vec::new();
    let mut j: usize = k;
    while j < store.entries.len() && entries.len() < lim
        invariant
            k <= j <= s.len(),
            s == store.entries@,
            entries@ =~= s.subrange(k as int, j as int),
            entries@.len() == j - k,
            j - k <= lim,
        decreases s.len() - j,
    {
        entries.push(store.entries[j].clone());
        j = j + 1;
        proof {
            assert(entries@ =~= s.subrange(k as int, j as int));
        }
    }
    proof {
        assert(entries@ =~= s.subrange(
            k as int,
            k as int + if (effective_limit(limit) as int) < s.len() - k {
                effective_limit(limit) as int
            } else {
                s.len() - k
            },
        ));
    }
    ListResponse { entries }
}

/// Routes one read request to its engine. No authorization is applied.
pub fn query(store: &Store, msg: QueryMsg) -> (r: Result<QueryResponse, ContractError>)
    requires
        store.wf(),
    ensures
        match msg {
            QueryMsg::QueryEntry { id } => {
                &&& (r is Ok) == crate::state::has_id(store.entries@, id)
                &&& r matches Ok(qr) ==> qr matches QueryResponse::Entry(resp)
                    && entry_response_for(resp, crate::state::entry_of_id(store.entries@, id))
                &&& r matches Err(e) ==> e == ContractError::NotFound
            },
            QueryMsg::QueryList { start_after, limit } => r matches Ok(qr) && qr matches
                QueryResponse::List(lr) && list_spec(store.entries@, start_after, limit, lr),
        },
{
    match msg {
        QueryMsg::QueryEntry { id } => match query_entry(store, id) {
            Ok(resp) => Ok(QueryResponse::Entry(resp)),
            Err(e) => Err(e),
        },
        QueryMsg::QueryList { start_after, limit } => Ok(
            QueryResponse::List(query_list(store, start_after, limit)),
        ),
    }
}

/// Ownership transfer takes effect for every later request: after a
/// successful transfer to a different identity, the new owner passes the
/// authorization guard and the old owner no longer does.
pub proof fn lemma_transfer_effect(
    pre: Store,
    post: Store,
    sender: String,
    new_owner: String,
    new_owner_valid: bool,
    r: Result<Response, ContractError>,
)
    requires
        transfer_spec(pre, post, sender, new_owner, new_owner_valid, r),
        r is Ok,
        sender@ != new_owner@,
    ensures
        authorized(post, new_owner),
        !authorized(post, sender),
{
}

/// One successful request, as far as the id counter is concerned: either a
/// create, carrying the id it returned, or any other operation, which leaves
/// the counter untouched (`update_spec`, `delete_spec`, `transfer_spec` and
/// `burn_spec` all say so).
pub enum CounterStep {
    Created(u64),
    Untouched,
}

/// The counter moves `pre` to `post` under one step: a create returns the
/// incremented counter; nothing else changes it.
pub open spec fn counter_step(pre: u64, post: u64, s: CounterStep) -> bool {
    match s {
        CounterStep::Created(id) => id == pre + 1 && post == pre + 1,
        CounterStep::Untouched => post == pre,
    }
}

/// The chain of counter values `counters` is linked step by step by `steps`.
pub open spec fn counter_run(counters: Seq<u64>, steps: Seq<CounterStep>) -> bool {
    &&& counters.len() == steps.len() + 1
    &&& forall|k: int|
        0 <= k < steps.len() ==> #[trigger] counter_step(counters[k], counters[k + 1], steps[k])
}

/// How many of the steps are creates.
pub open spec fn creates_among(steps: Seq<CounterStep>) -> int
    decreases steps.len(),
{
    if steps.len() == 0 {
        0
    } else {
        creates_among(steps.drop_last()) + if steps.last() is Created {
            1int
        } else {
            0int
        }
    }
}

/// Along a run, the counter always equals its start plus the number of
/// creates performed so far.
pub proof fn lemma_counter_counts_creates(counters: Seq<u64>, steps: Seq<CounterStep>, k: int)
    requires
        counter_run(counters, steps),
        0 <= k <= steps.len(),
    ensures
        counters[k] == counters[0] + creates_among(steps.take(k)),
    decreases k,
{
    if k == 0 {
        assert(steps.take(0) =~= Seq::<CounterStep>::empty());
    } else {
        let j = k - 1;
        lemma_counter_counts_creates(counters, steps, j);
        assert(counter_step(counters[j], counters[j + 1], steps[j]));
        assert(steps.take(k).drop_last() =~= steps.take(k - 1));
        assert(steps.take(k).last() == steps[k - 1]);
    }
}

/// Id monotonicity: in any run that starts from a fresh counter, the k-th
/// successful create returns exactly one more than the number of creates
/// before it — the created ids are 1, 2, 3, ... in call order, with no gaps
/// and no repeats, whatever other successful requests (deletes included)
/// come between them.
pub proof fn lemma_created_ids_consecutive(
    counters: Seq<u64>,
    steps: Seq<CounterStep>,
    k: int,
    id: u64,
)
    requires
        counter_run(counters, steps),
        counters.len() > 0,
        counters[0] == 0,
        0 <= k < steps.len(),
        steps[k] == CounterStep::Created(id),
    ensures
        id == creates_among(steps.take(k)) + 1,
{
    lemma_counter_counts_creates(counters, steps, k);
    assert(counter_step(counters[k], counters[k + 1], steps[k]));
}

/// A successful create is a `Created` counter step carrying the id it stored
/// under; together with `lemma_created_ids_consecutive` this pins the ids a
/// sequence of creates returns.
pub proof fn lemma_create_is_counter_step(
    pre: Store,
    post: Store,
    sender: String,
    description: String,
    priority: Option<Priority>,
    r: Result<Response, ContractError>,
)
    requires
        create_spec(pre, post, sender, description, priority, r),
        r is Ok,
    ensures
        counter_step(pre.entry_seq, post.entry_seq, CounterStep::Created(post.entry_seq)),
        post.entries@.last().id == post.entry_seq,
{
}

} // verus!
