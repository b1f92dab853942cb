//! The subscription manager: contract metadata, the background worker
//! handle, and the table of active subscriptions keyed by event name.
//!
//! All table mutation happens synchronously inside manager calls on the
//! caller's thread; the polling tasks themselves run elsewhere and are only
//! reached through the cancellation senders held in the table.

use vstd::prelude::*;
use crate::errors::Error;
use crate::token_checker::{ParamType, param_type_text, render_param_type, str_eq, hex_text,
    hex_string, hex_clean, hex_digits_of, hex_pairs_decode, strip_0x};
use crate::topic_filter::{FilterSpec, build_filter, filter_ok, filter_model_of, indexed_kinds,
    views_of};

verus! {

/// One declared parameter of an event.
#[derive(Debug)]
pub struct NativeParam {
    pub name: String,
    pub kind: ParamType,
    pub indexed: bool,
}

/// The mathematical value of a parameter descriptor.
pub struct ParamModel {
    pub name: Seq<char>,
    pub kind: ParamType,
    pub indexed: bool,
}

impl View for NativeParam {
    type V = ParamModel;

    open spec fn view(&self) -> ParamModel {
        ParamModel { name: self.name@, kind: self.kind, indexed: self.indexed }
    }
}

pub open spec fn params_models(ps: Seq<NativeParam>) -> Seq<ParamModel> {
    ps.map_values(|p: NativeParam| p@)
}

impl NativeParam {
    pub fn new(name: &str, kind: ParamType, indexed: bool) -> (r: Self)
        ensures
            r@ == (ParamModel { name: name@, kind, indexed }),
    {
        NativeParam { name: name.to_owned(), kind, indexed }
    }

    pub fn get_name(&self) -> (r: String)
        ensures
            r@ == self@.name,
    {
        self.name.clone()
    }

    /// The text name of the declared type.
    pub fn get_kind(&self) -> (r: String)
        ensures
            r@ == param_type_text(self@.kind),
    {
        render_param_type(&self.kind)
    }

    pub fn is_indexed(&self) -> (r: bool)
        ensures
            r == self@.indexed,
    {
        self.indexed
    }

    fn duplicate(&self) -> (r: Self)
        ensures
            r@ == self@,
    {
        NativeParam { name: self.name.clone(), kind: self.kind, indexed: self.indexed }
    }
}

/// One declared event of the contract.
#[derive(Debug)]
pub struct NativeEvent {
    pub name: String,
    pub params: Vec<NativeParam>,
}

/// The mathematical value of an event descriptor.
pub struct EventModel {
    pub name: Seq<char>,
    pub params: Seq<ParamModel>,
}

impl View for NativeEvent {
    type V = EventModel;

    open spec fn view(&self) -> EventModel {
        EventModel { name: self.name@, params: params_models(self.params@) }
    }
}

pub open spec fn events_models(es: Seq<NativeEvent>) -> Seq<EventModel> {
    es.map_values(|e: NativeEvent| e@)
}

fn duplicate_params(ps: &Vec<NativeParam>) -> (r: Vec<NativeParam>)
    ensures
        params_models(r@) == params_models(ps@),
{
    let mut out: Vec<NativeParam> = Vec::new();
    let mut i: usize = 0;
    while i < ps.len()
        invariant
            i <= ps.len(),
            out@.len() == i,
            forall|j: int| 0 <= j < i ==> #[trigger] out@[j]@ == ps@[j]@,
        decreases ps.len() - i,
    {
        out.push(ps[i].duplicate());
        i = i + 1;
    }
    proof {
        assert(params_models(out@) =~= params_models(ps@));
    }
    out
}

impl NativeEvent {
    pub fn new(name: &str, params: Vec<NativeParam>) -> (r: Self)
        ensures
            r@.name == name@,
            r@.params == params_models(params@),
    {
        NativeEvent { name: name.to_owned(), params }
    }

    pub fn get_name(&self) -> (r: String)
        ensures
            r@ == self@.name,
    {
        self.name.clone()
    }

    pub fn get_params(&self) -> (r: Vec<NativeParam>)
        ensures
            params_models(r@) == self@.params,
    {
        duplicate_params(&self.params)
    }

    fn duplicate(&self) -> (r: Self)
        ensures
            r@ == self@,
    {
        NativeEvent { name: self.name.clone(), params: duplicate_params(&self.params) }
    }
}

/// The position of the first event with the given name, or `-1`.
pub open spec fn first_event_index(evs: Seq<EventModel>, name: Seq<char>) -> int
    decreases evs.len(),
{
    if evs.len() == 0 {
        -1
    } else if evs[0].name == name {
        0
    } else {
        let rest = first_event_index(evs.subrange(1, evs.len() as int), name);
        if rest == -1 {
            -1
        } else {
            rest + 1
        }
    }
}

pub proof fn lemma_first_event_index(evs: Seq<EventModel>, name: Seq<char>)
    ensures
        first_event_index(evs, name) == -1 ==> (forall|i: int|
            0 <= i < evs.len() ==> (#[trigger] evs[i]).name != name),
        first_event_index(evs, name) != -1 ==> 0 <= first_event_index(evs, name) < evs.len(),
        first_event_index(evs, name) != -1 ==> evs[first_event_index(evs, name)].name == name,
        first_event_index(evs, name) != -1 ==> (forall|j: int|
            0 <= j < first_event_index(evs, name) ==> (#[trigger] evs[j]).name != name),
    decreases evs.len(),
{
    if evs.len() == 0 {
    } else if evs[0].name == name {
    } else {
        let rest = evs.subrange(1, evs.len() as int);
        lemma_first_event_index(rest, name);
        assert(forall|i: int| 1 <= i < evs.len() ==> evs[i] == rest[i - 1]);
    }
}

/// The position of the first occurrence of a name, or `-1`.
pub open spec fn first_name_index(names: Seq<Seq<char>>, name: Seq<char>) -> int
    decreases names.len(),
{
    if names.len() == 0 {
        -1
    } else if names[0] == name {
        0
    } else {
        let rest = first_name_index(names.subrange(1, names.len() as int), name);
        if rest == -1 {
            -1
        } else {
            rest + 1
        }
    }
}

pub proof fn lemma_first_name_index(names: Seq<Seq<char>>, name: Seq<char>)
    ensures
        first_name_index(names, name) == -1 ==> (forall|i: int|
            0 <= i < names.len() ==> #[trigger] names[i] != name),
        first_name_index(names, name) != -1 ==> 0 <= first_name_index(names, name) < names.len(),
        first_name_index(names, name) != -1 ==> names[first_name_index(names, name)] == name,
        first_name_index(names, name) != -1 ==> (forall|j: int|
            0 <= j < first_name_index(names, name) ==> #[trigger] names[j] != name),
    decreases names.len(),
{
    if names.len() == 0 {
    } else if names[0] == name {
    } else {
        let rest = names.subrange(1, names.len() as int);
        lemma_first_name_index(rest, name);
        assert(forall|i: int| 1 <= i < names.len() ==> names[i] == rest[i - 1]);
    }
}

/// Configures a contract instance from its metadata path, its account
/// address, and the remote node's location.
#[derive(Debug)]
pub struct NativeContractBuilder {
    abi_path: String,
    contract_address: String,
    host: String,
}

impl NativeContractBuilder {
    pub closed spec fn abi_path_model(self) -> Seq<char> {
        self.abi_path@
    }

    pub closed spec fn contract_address_model(self) -> Seq<char> {
        self.contract_address@
    }

    pub closed spec fn host_model(self) -> Seq<char> {
        self.host@
    }

    pub fn new(abi_path: &str, contract_address: &str, host: &str) -> (r: Self)
        ensures
            r.abi_path_model() == abi_path@,
            r.contract_address_model() == contract_address@,
            r.host_model() == host@,
    {
        NativeContractBuilder {
            abi_path: abi_path.to_owned(),
            contract_address: contract_address.to_owned(),
            host: host.to_owned(),
        }
    }

    pub fn set_abi_path(&mut self, value: &str)
        ensures
            final(self).abi_path_model() == value@,
            final(self).contract_address_model() == old(self).contract_address_model(),
            final(self).host_model() == old(self).host_model(),
    {
        self.abi_path = value.to_owned();
    }

    pub fn set_host(&mut self, value: &str)
        ensures
            final(self).host_model() == value@,
            final(self).abi_path_model() == old(self).abi_path_model(),
            final(self).contract_address_model() == old(self).contract_address_model(),
    {
        self.host = value.to_owned();
    }

    pub fn set_contract_address(&mut self, value: &str)
        ensures
            final(self).contract_address_model() == value@,
            final(self).abi_path_model() == old(self).abi_path_model(),
            final(self).host_model() == old(self).host_model(),
    {
        self.contract_address = value.to_owned();
    }

    /// Validates the configured account address and yields the contract
    /// instance.  The address must be forty hexadecimal digits, with an
    /// optional `0x` prefix.
    pub fn build(self) -> (r: Result<NativeContract, Error>)
        ensures
            r is Ok <==> addr_text_ok(self.contract_address_model()),
            r is Err ==> r->Err_0 == Error::TypeCoercion,
            r is Ok ==> r->Ok_0.addr_model() == addr_text_bytes(self.contract_address_model()),
            r is Ok ==> r->Ok_0.abi_path_model() == self.abi_path_model(),
            r is Ok ==> r->Ok_0.host_model() == self.host_model(),
            r is Ok ==> !r->Ok_0.is_inited(),
            r is Ok ==> !r->Ok_0.looper_on(),
            r is Ok ==> !r->Ok_0.reactor_stop_set(),
            r is Ok ==> r->Ok_0.events_model().len() == 0,
            r is Ok ==> r->Ok_0.sub_names().len() == 0,
            r is Ok ==> r->Ok_0.wf(),
    {
        let stripped = crate::token_checker::remove_0x(self.contract_address.as_str());
        match crate::token_checker::parse_address(stripped) {
            Ok(addr) => {
                let c = NativeContract {
                    abi_path: self.abi_path,
                    contract_address: addr,
                    host: self.host,
                    inited: false,
                    events: Vec::new(),
                    looper_running: false,
                    reactor_stop: None,
                    subs: Vec::new(),
                };
                proof {
                    assert(c.sub_names() =~= Seq::<Seq<char>>::empty());
                    assert(c.events_model() =~= Seq::<EventModel>::empty());
                }
                Ok(c)
            },
            Err(_) => Err(Error::TypeCoercion),
        }
    }
}

/// Whether a text is a valid account address: forty hexadecimal digits
/// after stripping up to two `0x` prefixes, blanks skipped.
pub open spec fn addr_text_ok(v: Seq<char>) -> bool {
    hex_clean(strip_0x(strip_0x(v))) && hex_digits_of(strip_0x(strip_0x(v))).len() == 40
}

/// The twenty bytes an address text denotes.
pub open spec fn addr_text_bytes(v: Seq<char>) -> Seq<u8> {
    hex_pairs_decode(hex_digits_of(strip_0x(strip_0x(v))))
}

#[verifier::external_type_specification]
#[verifier::external_body]
#[verifier::reject_recursive_types(T)]
pub struct ExSender<T>(futures::sync::mpsc::Sender<T>);

#[verifier::external_type_specification]
#[verifier::external_body]
#[verifier::reject_recursive_types(T)]
pub struct ExReceiver<T>(futures::sync::mpsc::Receiver<T>);

/// Relies on `futures::sync::mpsc::channel`: yields a connected
/// sender/receiver pair with one buffered slot, used as a cancellation
/// signal line.
#[verifier::external_body]
fn signal_channel() -> (futures::sync::mpsc::Sender<()>, futures::sync::mpsc::Receiver<()>) {
    futures::sync::mpsc::channel(1)
}

/// Relies on `futures::sink::Wait` around a channel sender: sends the
/// cancellation signal blocking, then flushes and closes the channel; any
/// step may fail, as when the receiving task is already gone.
#[verifier::external_body]
fn signal_stop(tx: futures::sync::mpsc::Sender<()>) -> (r: Result<(), ()>) {
    let mut w = futures::Sink::wait(tx);
    if w.send(()).is_err() {
        return Err(());
    }
    if w.flush().is_err() {
        return Err(());
    }
    if w.close().is_err() {
        return Err(());
    }
    Ok(())
}

/// A live entry of the subscription table: the event's name and the sender
/// that cancels its polling task.
pub struct SubscriptionHandle {
    pub event_name: String,
    pub cancel_sender: futures::sync::mpsc::Sender<()>,
}

/// What a successful start hands back: the built filter and the receiver
/// the polling task must watch for its cancellation signal.
pub struct SubscriptionStart {
    pub filter: FilterSpec,
    pub cancel_rx: futures::sync::mpsc::Receiver<()>,
}

/// How a start request is decided, in the order the checks are made: the
/// request itself is judged first, and only a request that would otherwise
/// start concerns itself with the background worker.
#[derive(Clone, Copy, Debug, PartialEq, Eq, Structural)]
pub enum StartDecision {
    /// The contract metadata is not loaded yet.
    Uninitialized,
    /// A subscription for the event name already exists.
    Already,
    /// The name does not match a declared event.
    Unknown,
    /// The first supplied value does not coerce to the first indexed
    /// parameter's type.
    BadFilter,
    /// The background worker is not running.
    NoReactor,
    /// The subscription starts.
    Go,
}

/// The error each refused start decision surfaces as.
pub open spec fn start_error(d: StartDecision) -> Error {
    match d {
        StartDecision::Uninitialized => Error::NotInitialized,
        StartDecision::NoReactor => Error::ReactorStartup,
        StartDecision::Already => Error::AlreadyLogging,
        StartDecision::Unknown => Error::UnknownEvent,
        StartDecision::BadFilter => Error::TypeCoercion,
        StartDecision::Go => Error::NotInitialized,
    }
}

/// The events whose names are in the active set, in declaration order.
pub open spec fn active_events(evs: Seq<EventModel>, names: Seq<Seq<char>>) -> Seq<EventModel>
    decreases evs.len(),
{
    if evs.len() == 0 {
        Seq::empty()
    } else {
        let rest = active_events(evs.drop_last(), names);
        if names.contains(evs.last().name) {
            rest.push(evs.last())
        } else {
            rest
        }
    }
}

/// Holds the contract metadata, the background worker's state, and the
/// table of active subscriptions.
pub struct NativeContract {
    abi_path: String,
    contract_address: Vec<u8>,
    host: String,
    inited: bool,
    events: Vec<NativeEvent>,
    looper_running: bool,
    reactor_stop: Option<futures::sync::mpsc::Sender<()>>,
    subs: Vec<SubscriptionHandle>,
}

impl NativeContract {
    pub closed spec fn events_model(self) -> Seq<EventModel> {
        events_models(self.events@)
    }

    pub closed spec fn sub_names(self) -> Seq<Seq<char>> {
        self.subs@.map_values(|h: SubscriptionHandle| h.event_name@)
    }

    /// Whether a live subscription exists for the name.
    pub open spec fn is_active(self, name: Seq<char>) -> bool {
        self.sub_names().contains(name)
    }

    pub closed spec fn is_inited(self) -> bool {
        self.inited
    }

    pub closed spec fn looper_on(self) -> bool {
        self.looper_running
    }

    pub closed spec fn reactor_stop_set(self) -> bool {
        self.reactor_stop is Some
    }

    pub closed spec fn addr_model(self) -> Seq<u8> {
        self.contract_address@
    }

    pub closed spec fn abi_path_model(self) -> Seq<char> {
        self.abi_path@
    }

    pub closed spec fn host_model(self) -> Seq<char> {
        self.host@
    }

    pub open spec fn has_event(self, name: Seq<char>) -> bool {
        first_event_index(self.events_model(), name) != -1
    }

    /// The first declared event with the given name.
    pub open spec fn event_at(self, name: Seq<char>) -> EventModel {
        self.events_model()[first_event_index(self.events_model(), name)]
    }

    /// The indexed parameter types of the first event with the given name.
    pub open spec fn event_kinds(self, name: Seq<char>) -> Seq<ParamType> {
        indexed_kinds(self.event_at(name).params)
    }

    /// At most one handle may exist per event name at any time: the core
    /// uniqueness invariant.  Constructors establish it and every method
    /// preserves it.
    pub open spec fn wf(self) -> bool {
        forall|i: int, j: int|
            0 <= i < j < self.sub_names().len() ==> self.sub_names()[i] != self.sub_names()[j]
    }

    /// How a start request for this name and these values is decided.
    pub open spec fn start_decision(self, name: Seq<char>, vs: Seq<Seq<char>>) -> StartDecision {
        if !self.is_inited() {
            StartDecision::Uninitialized
        } else if self.is_active(name) {
            StartDecision::Already
        } else if !self.has_event(name) {
            StartDecision::Unknown
        } else if !filter_ok(self.event_kinds(name), vs) {
            StartDecision::BadFilter
        } else if !self.looper_on() {
            StartDecision::NoReactor
        } else {
            StartDecision::Go
        }
    }
}

/// Whether two manager states agree on everything but the subscription
/// table and the shutdown sender.
pub open spec fn same_config(a: NativeContract, b: NativeContract) -> bool {
    a.events_model() == b.events_model() && a.is_inited() == b.is_inited() && a.looper_on()
        == b.looper_on() && a.addr_model() == b.addr_model() && a.host_model() == b.host_model()
        && a.abi_path_model() == b.abi_path_model()
}

impl NativeContract {
    fn find_sub_index(&self, name: &str) -> (r: Option<usize>)
        ensures
            r is Some <==> first_name_index(self.sub_names(), name@) != -1,
            r is Some ==> r->Some_0 == first_name_index(self.sub_names(), name@),
            r is Some ==> r->Some_0 < self.sub_names().len(),
    {
        proof {
            lemma_first_name_index(self.sub_names(), name@);
        }
        let mut i: usize = 0;
        while i < self.subs.len()
            invariant
                i <= self.subs.len(),
                forall|j: int| 0 <= j < i ==> #[trigger] self.sub_names()[j] != name@,
            decreases self.subs.len() - i,
        {
            if str_eq(self.subs[i].event_name.as_str(), name) {
                proof {
                    lemma_first_name_index(self.sub_names(), name@);
                    assert(self.sub_names()[i as int] == name@);
                    let k = first_name_index(self.sub_names(), name@);
                    assert(k != -1);
                    assert(self.sub_names()[k] == name@);
                    assert(k == i as int);
                }
                return Some(i);
            }
            i = i + 1;
        }
        None
    }

    fn find_event_index(&self, name: &str) -> (r: Option<usize>)
        ensures
            r is Some <==> first_event_index(self.events_model(), name@) != -1,
            r is Some ==> r->Some_0 == first_event_index(self.events_model(), name@),
            r is Some ==> r->Some_0 < self.events_model().len(),
    {
        proof {
            lemma_first_event_index(self.events_model(), name@);
        }
        let mut i: usize = 0;
        while i < self.events.len()
            invariant
                i <= self.events.len(),
                forall|j: int| 0 <= j < i ==> (#[trigger] self.events_model()[j]).name != name@,
            decreases self.events.len() - i,
        {
            if str_eq(self.events[i].name.as_str(), name) {
                proof {
                    lemma_first_event_index(self.events_model(), name@);
                    assert(self.events_model()[i as int].name == name@);
                    let k = first_event_index(self.events_model(), name@);
                    assert(k != -1);
                    assert(self.events_model()[k].name == name@);
                    assert(k == i as int);
                }
                return Some(i);
            }
            i = i + 1;
        }
        None
    }

    pub fn get_abi_path(&self) -> (r: &str)
        ensures
            r@ == self.abi_path_model(),
    {
        self.abi_path.as_str()
    }

    pub fn get_host(&self) -> (r: &str)
        ensures
            r@ == self.host_model(),
    {
        self.host.as_str()
    }

    /// The account address as lowercase hexadecimal text with a `0x` prefix.
    pub fn get_contract_address(&self) -> (r: String)
        ensures
            r@ == "0x"@ + hex_text(self.addr_model()),
    {
        let h = hex_string(&self.contract_address);
        String::from_str("0x").concat(h.as_str())
    }

    /// Loads the contract metadata.  Loading happens exactly once: a call
    /// on an initialized instance is a no-op.
    pub fn init(&mut self, events: Vec<NativeEvent>) -> (r: Result<(), Error>)
        requires
            old(self).wf(),
        ensures
            final(self).wf(),
            r is Ok,
            old(self).is_inited() ==> *final(self) == *old(self),
            !old(self).is_inited() ==> final(self).is_inited(),
            !old(self).is_inited() ==> final(self).events_model() == events_models(events@),
            final(self).sub_names() == old(self).sub_names(),
            final(self).looper_on() == old(self).looper_on(),
            final(self).reactor_stop_set() == old(self).reactor_stop_set(),
            final(self).addr_model() == old(self).addr_model(),
            final(self).host_model() == old(self).host_model(),
            final(self).abi_path_model() == old(self).abi_path_model(),
    {
        if self.inited {
            return Ok(());
        }
        self.events = events;
        self.inited = true;
        proof {
            assert(self.sub_names() =~= old(self).sub_names());
        }
        Ok(())
    }

    pub fn get_all_events(&self) -> (r: Result<Vec<NativeEvent>, Error>)
        ensures
            r is Ok <==> self.is_inited(),
            r is Err ==> r->Err_0 == Error::NotInitialized,
            r is Ok ==> events_models(r->Ok_0@) == self.events_model(),
    {
        if !self.inited {
            return Err(Error::NotInitialized);
        }
        let mut out: Vec<NativeEvent> = Vec::new();
        let mut i: usize = 0;
        while i < self.events.len()
            invariant
                i <= self.events.len(),
                out@.len() == i,
                forall|j: int| 0 <= j < i ==> #[trigger] out@[j]@ == self.events@[j]@,
            decreases self.events.len() - i,
        {
            out.push(self.events[i].duplicate());
            i = i + 1;
        }
        proof {
            assert(events_models(out@) =~= self.events_model());
        }
        Ok(out)
    }

    pub fn get_event_by_id(&self, id: usize) -> (r: Result<NativeEvent, Error>)
        ensures
            !self.is_inited() ==> r is Err,
            !self.is_inited() ==> r->Err_0 == Error::NotInitialized,
            self.is_inited() && id >= self.events_model().len() ==> r is Err,
            self.is_inited() && id >= self.events_model().len() ==> r->Err_0
                == Error::IndexOutOfRange,
            r is Ok <==> (self.is_inited() && (id as int) < self.events_model().len()),
            r is Ok ==> r->Ok_0@ == self.events_model()[id as int],
    {
        if !self.inited {
            return Err(Error::NotInitialized);
        }
        if id >= self.events.len() {
            return Err(Error::IndexOutOfRange);
        }
        Ok(self.events[id].duplicate())
    }

    pub fn get_event_by_name(&self, name: &str) -> (r: Result<NativeEvent, Error>)
        ensures
            !self.is_inited() ==> r is Err,
            !self.is_inited() ==> r->Err_0 == Error::NotInitialized,
            self.is_inited() && !self.has_event(name@) ==> r is Err,
            self.is_inited() && !self.has_event(name@) ==> r->Err_0 == Error::UnknownEvent,
            r is Ok <==> (self.is_inited() && self.has_event(name@)),
            r is Ok ==> r->Ok_0@ == self.event_at(name@),
    {
        if !self.inited {
            return Err(Error::NotInitialized);
        }
        match self.find_event_index(name) {
            Some(i) => Ok(self.events[i].duplicate()),
            None => Err(Error::UnknownEvent),
        }
    }

    /// Whether the background worker still has to be started before a
    /// subscription can be submitted.
    pub fn reactor_needed(&self) -> (r: Result<bool, Error>)
        ensures
            r is Ok <==> self.is_inited(),
            r is Err ==> r->Err_0 == Error::NotInitialized,
            r is Ok ==> r->Ok_0 == !self.looper_on(),
    {
        if !self.inited {
            return Err(Error::NotInitialized);
        }
        Ok(!self.looper_running)
    }

    /// Records the started background worker.  `stop_tx` is the dedicated
    /// shutdown signal of the worker's parked task; it is fired by
    /// `stop_all`.  The worker is never restarted once recorded.
    pub fn reactor_started(&mut self, stop_tx: futures::sync::mpsc::Sender<()>)
        requires
            old(self).wf(),
        ensures
            final(self).wf(),
            final(self).looper_on(),
            final(self).reactor_stop_set(),
            final(self).sub_names() == old(self).sub_names(),
            final(self).events_model() == old(self).events_model(),
            final(self).is_inited() == old(self).is_inited(),
            final(self).addr_model() == old(self).addr_model(),
            final(self).host_model() == old(self).host_model(),
            final(self).abi_path_model() == old(self).abi_path_model(),
    {
        self.looper_running = true;
        self.reactor_stop = Some(stop_tx);
        proof {
            assert(self.sub_names() =~= old(self).sub_names());
        }
    }

    /// Starts a subscription: decides the request, builds the topic filter,
    /// and registers the cancellation handle under the event name.  The
    /// caller schedules the polling task from the returned start data; this
    /// call itself never blocks on the subscription's lifetime.
    pub fn log_event_by_name(&mut self, name: &str, params: Vec<String>) -> (r: Result<
        SubscriptionStart,
        Error,
    >)
        requires
            old(self).wf(),
        ensures
            final(self).wf(),
            r is Ok <==> old(self).start_decision(name@, views_of(params@)) is Go,
            r is Err ==> r->Err_0 == start_error(
                old(self).start_decision(name@, views_of(params@)),
            ),
            r is Err ==> *final(self) == *old(self),
            r is Ok ==> final(self).sub_names() == old(self).sub_names().push(name@),
            r is Ok ==> r->Ok_0.filter@ == filter_model_of(
                old(self).event_kinds(name@),
                views_of(params@),
            ),
            same_config(*final(self), *old(self)),
            final(self).reactor_stop_set() == old(self).reactor_stop_set(),
    {
        if !self.inited {
            return Err(Error::NotInitialized);
        }
        proof {
            lemma_first_name_index(self.sub_names(), name@);
        }
        if self.find_sub_index(name).is_some() {
            proof {
                assert(self.is_active(name@));
            }
            return Err(Error::AlreadyLogging);
        }
        proof {
            assert(!self.is_active(name@));
        }
        let ev_idx = match self.find_event_index(name) {
            Some(i) => i,
            None => {
                return Err(Error::UnknownEvent);
            },
        };
        proof {
            assert(self.events_model()[ev_idx as int] == self.events@[ev_idx as int]@);
        }
        let filter = match build_filter(&self.events[ev_idx].params, &params) {
            Ok(f) => f,
            Err(e) => {
                return Err(e);
            },
        };
        if !self.looper_running {
            return Err(Error::ReactorStartup);
        }
        let (tx, rx) = signal_channel();
        let handle = SubscriptionHandle { event_name: name.to_owned(), cancel_sender: tx };
        self.subs.push(handle);
        proof {
            assert(self.sub_names() =~= old(self).sub_names().push(name@));
            assert forall|i: int, j: int| 0 <= i < j < self.sub_names().len() implies self
                .sub_names()[i] != self.sub_names()[j] by {
                if j == self.sub_names().len() - 1 {
                    assert(self.sub_names()[i] == old(self).sub_names()[i]);
                    assert(old(self).sub_names()[i] != name@);
                } else {
                    assert(self.sub_names()[i] == old(self).sub_names()[i]);
                    assert(self.sub_names()[j] == old(self).sub_names()[j]);
                }
            }
        }
        Ok(SubscriptionStart { filter, cancel_rx: rx })
    }

    /// Starts a subscription for the event at a numeric id.
    pub fn log_event_by_id(&mut self, id: usize, params: Vec<String>) -> (r: Result<
        SubscriptionStart,
        Error,
    >)
        requires
            old(self).wf(),
        ensures
            final(self).wf(),
            !old(self).is_inited() ==> r is Err,
            !old(self).is_inited() ==> r->Err_0 == Error::NotInitialized,
            old(self).is_inited() && id >= old(self).events_model().len() ==> r is Err,
            old(self).is_inited() && id >= old(self).events_model().len() ==> r->Err_0
                == Error::IndexOutOfRange,
            r is Err ==> *final(self) == *old(self),
            old(self).is_inited() && (id as int) < old(self).events_model().len() ==> ({
                let name = old(self).events_model()[id as int].name;
                &&& (r is Ok <==> old(self).start_decision(name, views_of(params@)) is Go)
                &&& (r is Err ==> r->Err_0 == start_error(
                    old(self).start_decision(name, views_of(params@)),
                ))
                &&& (r is Ok ==> final(self).sub_names() == old(self).sub_names().push(name))
                &&& (r is Ok ==> r->Ok_0.filter@ == filter_model_of(
                    old(self).event_kinds(name),
                    views_of(params@),
                ))
            }),
            same_config(*final(self), *old(self)),
            final(self).reactor_stop_set() == old(self).reactor_stop_set(),
    {
        if !self.inited {
            return Err(Error::NotInitialized);
        }
        if id >= self.events.len() {
            return Err(Error::IndexOutOfRange);
        }
        let name = self.events[id].name.clone();
        self.log_event_by_name(name.as_str(), params)
    }

    /// Stops a subscription: removes its handle and fires its cancellation
    /// signal.  The send does not wait for the polling task to observe it.
    pub fn stop_event_by_name(&mut self, name: &str) -> (r: Result<(), Error>)
        requires
            old(self).wf(),
        ensures
            final(self).wf(),
            !old(self).is_inited() ==> r is Err,
            !old(self).is_inited() ==> r->Err_0 == Error::NotInitialized,
            old(self).is_inited() && !old(self).is_active(name@) ==> r is Err,
            old(self).is_inited() && !old(self).is_active(name@) ==> r->Err_0
                == Error::NotSubscribed,
            (!old(self).is_inited() || !old(self).is_active(name@)) ==> *final(self) == *old(self),
            old(self).is_inited() && old(self).is_active(name@) ==> ({
                let names = old(self).sub_names();
                let k = first_name_index(names, name@);
                final(self).sub_names() == names.subrange(0, k) + names.subrange(
                    k + 1,
                    names.len() as int,
                )
            }),
            old(self).is_inited() && old(self).is_active(name@) ==> !final(self).is_active(name@),
            old(self).is_inited() && old(self).is_active(name@) ==> (r is Ok || r->Err_0
                == Error::SendFailed),
            same_config(*final(self), *old(self)),
            final(self).reactor_stop_set() == old(self).reactor_stop_set(),
    {
        proof {
            lemma_first_name_index(old(self).sub_names(), name@);
        }
        if !self.inited {
            return Err(Error::NotInitialized);
        }
        let idx = match self.find_sub_index(name) {
            Some(i) => i,
            None => {
                proof {
                    assert(!self.is_active(name@));
                }
                return Err(Error::NotSubscribed);
            },
        };
        proof {
            assert(self.is_active(name@));
        }
        let handle = self.subs.remove(idx);
        proof {
            let names = old(self).sub_names();
            let k = idx as int;
            assert(self.sub_names() =~= names.subrange(0, k) + names.subrange(
                k + 1,
                names.len() as int,
            ));
            assert forall|i: int| 0 <= i < self.sub_names().len() implies #[trigger] self
                .sub_names()[i] != name@ by {
                if i < k {
                    assert(self.sub_names()[i] == names[i]);
                } else {
                    assert(self.sub_names()[i] == names[i + 1]);
                }
            }
            assert(!self.is_active(name@));
            assert forall|a: int, b: int| 0 <= a < b < self.sub_names().len() implies self
                .sub_names()[a] != self.sub_names()[b] by {
                let pa = if a < k { a } else { a + 1 };
                let pb = if b < k { b } else { b + 1 };
                assert(self.sub_names()[a] == names[pa]);
                assert(self.sub_names()[b] == names[pb]);
                assert(names[pa] != names[pb]);
            }
        }
        match signal_stop(handle.cancel_sender) {
            Ok(_) => Ok(()),
            Err(_) => Err(Error::SendFailed),
        }
    }

    /// Stops a subscription addressed by the event's numeric id.
    pub fn stop_event_by_id(&mut self, id: usize) -> (r: Result<(), Error>)
        requires
            old(self).wf(),
        ensures
            final(self).wf(),
            !old(self).is_inited() ==> r is Err,
            !old(self).is_inited() ==> r->Err_0 == Error::NotInitialized,
            old(self).is_inited() && id >= old(self).events_model().len() ==> r is Err,
            old(self).is_inited() && id >= old(self).events_model().len() ==> r->Err_0
                == Error::IndexOutOfRange,
            r is Err && r->Err_0 != Error::SendFailed ==> *final(self) == *old(self),
            old(self).is_inited() && (id as int) < old(self).events_model().len() ==> ({
                let name = old(self).events_model()[id as int].name;
                &&& (!old(self).is_active(name) ==> r is Err && r->Err_0 == Error::NotSubscribed)
                &&& (old(self).is_active(name) ==> !final(self).is_active(name))
                &&& (old(self).is_active(name) ==> (r is Ok || r->Err_0 == Error::SendFailed))
            }),
            same_config(*final(self), *old(self)),
            final(self).reactor_stop_set() == old(self).reactor_stop_set(),
    {
        if !self.inited {
            return Err(Error::NotInitialized);
        }
        if id >= self.events.len() {
            return Err(Error::IndexOutOfRange);
        }
        let name = self.events[id].name.clone();
        self.stop_event_by_name(name.as_str())
    }

    /// Stops every subscription and the background worker's parked task.
    /// The table is emptied whatever the sends' outcomes; the call succeeds
    /// only if every cancellation send succeeded.
    pub fn stop_all(&mut self) -> (r: Result<(), Error>)
        requires
            old(self).wf(),
        ensures
            final(self).wf(),
            !old(self).is_inited() ==> r is Err,
            !old(self).is_inited() ==> r->Err_0 == Error::NotInitialized,
            !old(self).is_inited() ==> *final(self) == *old(self),
            old(self).is_inited() ==> final(self).sub_names().len() == 0,
            old(self).is_inited() ==> !final(self).reactor_stop_set(),
            old(self).is_inited() ==> (r is Ok || r->Err_0 == Error::StopAllFailed),
            same_config(*final(self), *old(self)),
    {
        if !self.inited {
            return Err(Error::NotInitialized);
        }
        let mut all_ok = true;
        while self.subs.len() > 0
            invariant
                same_config(*self, *old(self)),
                self.reactor_stop_set() == old(self).reactor_stop_set(),
            decreases self.subs.len(),
        {
            match self.subs.pop() {
                Some(h) => {
                    if signal_stop(h.cancel_sender).is_err() {
                        all_ok = false;
                    }
                },
                None => {},
            }
        }
        match self.reactor_stop.take() {
            Some(tx) => {
                if signal_stop(tx).is_err() {
                    all_ok = false;
                }
            },
            None => {},
        }
        if all_ok {
            Ok(())
        } else {
            Err(Error::StopAllFailed)
        }
    }

    /// The declared events that currently have a live subscription.
    pub fn get_logging_events(&self) -> (r: Result<Vec<NativeEvent>, Error>)
        ensures
            r is Ok <==> self.is_inited(),
            r is Err ==> r->Err_0 == Error::NotInitialized,
            r is Ok ==> events_models(r->Ok_0@) == active_events(
                self.events_model(),
                self.sub_names(),
            ),
    {
        if !self.inited {
            return Err(Error::NotInitialized);
        }
        let mut out: Vec<NativeEvent> = Vec::new();
        let mut i: usize = 0;
        while i < self.events.len()
            invariant
                i <= self.events.len(),
                events_models(out@) == active_events(
                    self.events_model().take(i as int),
                    self.sub_names(),
                ),
            decreases self.events.len() - i,
        {
            proof {
                lemma_first_name_index(self.sub_names(), self.events_model()[i as int].name);
                assert(self.events_model().take(i + 1 as int).drop_last() =~= self.events_model()
                    .take(i as int));
                assert(self.events_model().take(i + 1 as int).last() == self.events_model()[
                    i as int
                ]);
            }
            if self.find_sub_index(self.events[i].name.as_str()).is_some() {
                proof {
                    assert(self.sub_names().contains(self.events_model()[i as int].name));
                }
                let ghost prev = out@;
                out.push(self.events[i].duplicate());
                proof {
                    assert(events_models(out@) =~= events_models(prev).push(
                        self.events_model()[i as int],
                    ));
                }
            } else {
                proof {
                    if self.sub_names().contains(self.events_model()[i as int].name) {
                        let w = choose|w: int|
                            0 <= w < self.sub_names().len() && self.sub_names()[w]
                                == self.events_model()[i as int].name;
                        assert(false);
                    }
                }
            }
            i = i + 1;
        }
        proof {
            assert(self.events_model().take(self.events_model().len() as int)
                =~= self.events_model());
        }
        Ok(out)
    }
}

/// The callback sink: a single-method capability invoked once per
/// delivered log entry.  Implementations live with the driver, outside the
/// library; `L` is the driver's log entry type.
pub trait INativeCallback<L> {
    fn on_new_log(&self, content: L);
}

/// A second start for the same event name, with no intervening stop, is
/// refused as already logging, whatever values it supplies.
pub proof fn lemma_start_twice_already_logging(
    pre: NativeContract,
    post: NativeContract,
    name: Seq<char>,
    vs1: Seq<Seq<char>>,
    vs2: Seq<Seq<char>>,
)
    requires
        pre.start_decision(name, vs1) is Go,
        post.sub_names() == pre.sub_names().push(name),
        post.is_inited() == pre.is_inited(),
    ensures
        post.start_decision(name, vs2) is Already,
{
    assert(post.sub_names()[post.sub_names().len() - 1] == name);
    assert(post.is_active(name));
}

/// Stopping a live subscription removes its name from the active set at
/// once, even though the polling task may still be winding down.
pub proof fn lemma_stop_removes_immediately(
    pre: NativeContract,
    post: NativeContract,
    name: Seq<char>,
)
    requires
        pre.wf(),
        pre.is_active(name),
        post.sub_names() == pre.sub_names().subrange(0, first_name_index(pre.sub_names(), name))
            + pre.sub_names().subrange(
            first_name_index(pre.sub_names(), name) + 1,
            pre.sub_names().len() as int,
        ),
    ensures
        !post.is_active(name),
{
    let names = pre.sub_names();
    lemma_first_name_index(names, name);
    let k = first_name_index(names, name);
    assert(k != -1);
    assert forall|i: int| 0 <= i < post.sub_names().len() implies #[trigger] post.sub_names()[i]
        != name by {
        if i < k {
            assert(post.sub_names()[i] == names[i]);
        } else {
            assert(post.sub_names()[i] == names[i + 1]);
        }
    }
}

/// A previously stopped event name can be subscribed to again: the stop
/// leaves no residual already-logging state behind.
pub proof fn lemma_resubscribe_after_stop(
    pre: NativeContract,
    post: NativeContract,
    name: Seq<char>,
    vs: Seq<Seq<char>>,
)
    requires
        pre.wf(),
        pre.is_active(name),
        post.sub_names() == pre.sub_names().subrange(0, first_name_index(pre.sub_names(), name))
            + pre.sub_names().subrange(
            first_name_index(pre.sub_names(), name) + 1,
            pre.sub_names().len() as int,
        ),
        post.is_inited(),
        post.looper_on(),
        post.has_event(name),
        filter_ok(post.event_kinds(name), vs),
    ensures
        post.start_decision(name, vs) is Go,
{
    lemma_stop_removes_immediately(pre, post, name);
}

/// Looking an event up by a name taken from the event listing returns an
/// event of that very name.
pub proof fn lemma_event_by_name_round_trip(c: NativeContract, i: int)
    requires
        0 <= i < c.events_model().len(),
    ensures
        c.has_event(c.events_model()[i].name),
        c.event_at(c.events_model()[i].name).name == c.events_model()[i].name,
{
    lemma_first_event_index(c.events_model(), c.events_model()[i].name);
}

/// With no live subscription left, no event is listed as logging.
pub proof fn lemma_no_subscription_no_logging(evs: Seq<EventModel>, names: Seq<Seq<char>>)
    requires
        names.len() == 0,
    ensures
        active_events(evs, names).len() == 0,
    decreases evs.len(),
{
    if evs.len() > 0 {
        lemma_no_subscription_no_logging(evs.drop_last(), names);
    }
}

} // verus!
