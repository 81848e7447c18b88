//! The decisions around OpenSSL's ECDSA calls.
//!
//! A key is made in three steps: the context says whether a key is wanted and
//! on which curve, the caller asks OpenSSL for an `EC_KEY` object
//! (`EC_KEY_new_by_curve_name`), hands the address back to be checked, asks
//! OpenSSL to generate the key pair (`EC_KEY_generate_key`) and hands the
//! return code back, upon which the key is installed. Signing is alike: the
//! context says which key and which digest length to pass to `ECDSA_do_sign`,
//! and the returned signature address is checked before it is freed.

use libc::c_int;
use vstd::prelude::*;

verus! {

/// OpenSSL's numeric identifier of the curve X9.62 prime256v1 (P-256).
pub const NID_X9_62_PRIME256V1: c_int = 415;

/// Why a step around an OpenSSL call failed.
#[derive(Clone, Copy, PartialEq, Eq, Debug)]
pub enum OpensslEccError {
    /// `EC_KEY_new_by_curve_name` returned a null pointer.
    KeyAllocation,
    /// `EC_KEY_generate_key` did not return 1.
    KeyGeneration,
    /// A signature was asked for while the context holds no key.
    NoKey,
    /// `ECDSA_do_sign` returned a null pointer.
    Signing,
    /// A key creation step reported something that the creation under way
    /// did not ask for.
    UnexpectedEvent,
}

/// Whether making a key replaces a key that the context already holds.
#[derive(Clone, Copy, PartialEq, Eq, Debug)]
pub enum KeyPolicy {
    /// A new key is made on every request and replaces the old one.
    Replace,
    /// A key is made only while the context holds none.
    KeepExisting,
}

/// An OpenSSL `EC_KEY` object, known by the address at which OpenSSL made it.
#[derive(Clone, Copy, PartialEq, Eq, Structural, Debug)]
pub enum EcKey {
    At(usize),
}

impl EcKey {
    /// The address of the object.
    pub open spec fn spec_addr(self) -> usize {
        match self {
            EcKey::At(addr) => addr,
        }
    }

    /// Checks the address that `EC_KEY_new_by_curve_name` returned: a null
    /// address means that OpenSSL could not make the object.
    pub fn from_addr(addr: usize) -> (r: Result<EcKey, OpensslEccError>)
        ensures
            r is Err <==> addr == 0,
            r matches Err(e) ==> e == OpensslEccError::KeyAllocation,
            r matches Ok(k) ==> k.spec_addr() == addr,
    {
        if addr == 0 {
            Err(OpensslEccError::KeyAllocation)
        } else {
            Ok(EcKey::At(addr))
        }
    }

    /// The address of the object, to be handed to OpenSSL.
    pub fn addr(&self) -> (r: usize)
        ensures
            r == self.spec_addr(),
    {
        match self {
            EcKey::At(addr) => *addr,
        }
    }
}

/// What to pass to `ECDSA_do_sign`: the key object and the digest length,
/// which is the data length converted to a C `int`.
#[derive(Clone, Copy, PartialEq, Eq, Debug)]
pub struct SignRequest {
    pub key_addr: usize,
    pub dgst_len: c_int,
}

/// The key held after `EC_KEY_generate_key` returned `rc` on the object at
/// `key`, given the key `held` before (keys are known by their addresses).
pub open spec fn key_after_install(held: Option<usize>, key: usize, rc: c_int) -> Option<usize> {
    if rc == 1 {
        Some(key)
    } else {
        held
    }
}

/// Whether a key is to be made, given the key held and the policy.
pub open spec fn wants_new_key(held: Option<usize>, policy: KeyPolicy) -> bool {
    policy == KeyPolicy::Replace || held is None
}

/// The request for `ECDSA_do_sign`, given the key held and the data length.
pub open spec fn sign_request_for(held: Option<usize>, data_len: usize) -> Result<
    SignRequest,
    OpensslEccError,
> {
    match held {
        Some(addr) => Ok(SignRequest { key_addr: addr, dgst_len: data_len as c_int }),
        None => Err(OpensslEccError::NoKey),
    }
}

/// What the caller reports to a key creation: that it starts, what
/// `EC_KEY_new_by_curve_name` returned, or what `EC_KEY_generate_key`
/// returned on the object.
#[derive(Clone, Copy, PartialEq, Eq, Debug)]
pub enum KeyEvent {
    Start,
    Allocated(usize),
    Generated(EcKey, c_int),
}

/// What the caller is to do next in a key creation.
#[derive(Clone, Copy, PartialEq, Eq, Debug)]
pub enum KeyAction {
    /// Call `EC_KEY_new_by_curve_name` on this curve and report `Allocated`.
    Allocate(c_int),
    /// Call `EC_KEY_generate_key` on this object and report `Generated`.
    Generate(EcKey),
    /// The key creation is over.
    Done,
    /// The key creation failed.
    Failed(OpensslEccError),
}

/// Where a key creation stands.
#[derive(Clone, Copy, PartialEq, Eq, Structural, Debug)]
pub enum Creation {
    /// No key creation is under way.
    Idle,
    /// A new `EC_KEY` object was asked for.
    Allocating,
    /// The key pair is being generated on this object.
    Generating(EcKey),
}

/// One step of a key creation: given the key held, where the creation
/// stands, the policy and the event reported, the action for the caller,
/// the key held afterwards and where the creation stands afterwards. An
/// event that the creation under way did not ask for changes nothing.
pub open spec fn key_step(
    held: Option<usize>,
    creation: Creation,
    policy: KeyPolicy,
    event: KeyEvent,
) -> (KeyAction, Option<usize>, Creation) {
    match event {
        KeyEvent::Start => if wants_new_key(held, policy) {
            (KeyAction::Allocate(NID_X9_62_PRIME256V1), held, Creation::Allocating)
        } else {
            (KeyAction::Done, held, Creation::Idle)
        },
        KeyEvent::Allocated(addr) => if creation != Creation::Allocating {
            (KeyAction::Failed(OpensslEccError::UnexpectedEvent), held, creation)
        } else if addr == 0 {
            (KeyAction::Failed(OpensslEccError::KeyAllocation), held, Creation::Idle)
        } else {
            (KeyAction::Generate(EcKey::At(addr)), held, Creation::Generating(EcKey::At(addr)))
        },
        KeyEvent::Generated(key, rc) => if creation != Creation::Generating(key) {
            (KeyAction::Failed(OpensslEccError::UnexpectedEvent), held, creation)
        } else if rc == 1 {
            (KeyAction::Done, Some(key.spec_addr()), Creation::Idle)
        } else {
            (KeyAction::Failed(OpensslEccError::KeyGeneration), held, Creation::Idle)
        },
    }
}

/// The key held and where the key creation stands after a sequence of
/// reported events. Signing never changes either.
pub open spec fn key_state_after(
    held: Option<usize>,
    creation: Creation,
    policy: KeyPolicy,
    events: Seq<KeyEvent>,
) -> (Option<usize>, Creation)
    decreases events.len(),
{
    if events.len() == 0 {
        (held, creation)
    } else {
        let (_, held1, creation1) = key_step(held, creation, policy, events[0]);
        key_state_after(held1, creation1, policy, events.drop_first())
    }
}

/// The key held after one whole key creation under `policy` in which
/// `EC_KEY_new_by_curve_name` returned `addr` and `EC_KEY_generate_key`
/// returned `rc` (a creation that fails keeps the key held before).
pub open spec fn key_after_creation(held: Option<usize>, policy: KeyPolicy, addr: usize, rc: c_int) -> Option<usize> {
    if !wants_new_key(held, policy) || addr == 0 {
        held
    } else {
        key_after_install(held, addr, rc)
    }
}

/// The events that a caller reports in one whole key creation in which
/// `EC_KEY_new_by_curve_name` returned `addr` and `EC_KEY_generate_key`
/// returned `rc`: it stops as soon as no further call is asked for.
pub open spec fn creation_events(held: Option<usize>, policy: KeyPolicy, addr: usize, rc: c_int) -> Seq<KeyEvent> {
    if !wants_new_key(held, policy) {
        seq![KeyEvent::Start]
    } else if addr == 0 {
        seq![KeyEvent::Start, KeyEvent::Allocated(addr)]
    } else {
        seq![KeyEvent::Start, KeyEvent::Allocated(addr), KeyEvent::Generated(EcKey::At(addr), rc)]
    }
}

/// Holds at most one OpenSSL key, never one at the null address, and where
/// the key creation under way stands.
pub struct Context {
    key: Option<EcKey>,
    creation: Creation,
}

impl Context {
    #[verifier::type_invariant]
    spec fn keys_non_null(self) -> bool {
        &&& self.key matches Some(k) ==> k.spec_addr() != 0
        &&& self.creation matches Creation::Generating(k) ==> k.spec_addr() != 0
    }

    /// Where the key creation under way stands.
    pub closed spec fn creation(&self) -> Creation {
        self.creation
    }

    /// The address of the key held, if any.
    pub closed spec fn held(&self) -> Option<usize> {
        match self.key {
            Some(k) => Some(k.spec_addr()),
            None => None,
        }
    }

    /// An empty context: no key yet.
    pub fn new() -> (ctx: Context)
        ensures
            ctx.held() is None,
            ctx.creation() == Creation::Idle,
    {
        Context { key: None, creation: Creation::Idle }
    }

    /// The curve on which OpenSSL is to make a new key, or `None` when no
    /// key is to be made.
    pub fn key_request(&self, policy: KeyPolicy) -> (r: Option<c_int>)
        ensures
            r is Some <==> wants_new_key(self.held(), policy),
            r matches Some(nid) ==> nid == NID_X9_62_PRIME256V1,
    {
        match policy {
            KeyPolicy::Replace => Some(NID_X9_62_PRIME256V1),
            KeyPolicy::KeepExisting => if self.key.is_none() {
                Some(NID_X9_62_PRIME256V1)
            } else {
                None
            },
        }
    }

    /// Installs `key` once `EC_KEY_generate_key` returned `rc` on it: only
    /// the return code 1 means that the key pair was generated.
    pub fn install_generated_key(&mut self, key: EcKey, rc: c_int) -> (r: Result<
        (),
        OpensslEccError,
    >)
        requires
            key.spec_addr() != 0,
        ensures
            r is Ok <==> rc == 1,
            r matches Err(e) ==> e == OpensslEccError::KeyGeneration,
            final(self).held() == key_after_install(old(self).held(), key.spec_addr(), rc),
            final(self).creation() == old(self).creation(),
    {
        proof {
            use_type_invariant(&*self);
        }
        if rc == 1 {
            self.key = Some(key);
            Ok(())
        } else {
            Err(OpensslEccError::KeyGeneration)
        }
    }

    /// One step of a key creation: takes what the caller reports and says
    /// what it is to do next. A creation starts with `Start`; the key is
    /// installed when `EC_KEY_generate_key` reports 1 on the object that the
    /// creation asked to be generated. An event that the creation under way
    /// did not ask for is refused and changes nothing.
    pub fn key_create_step(&mut self, policy: KeyPolicy, event: KeyEvent) -> (a: KeyAction)
        ensures
            (a, final(self).held(), final(self).creation()) == key_step(
                old(self).held(),
                old(self).creation(),
                policy,
                event,
            ),
            a matches KeyAction::Allocate(nid) ==> nid == NID_X9_62_PRIME256V1,
            event == KeyEvent::Start ==> (a is Allocate <==> wants_new_key(old(self).held(), policy)),
            event matches KeyEvent::Allocated(addr) ==> (addr != 0 && old(self).creation()
                == Creation::Allocating ==> a == KeyAction::Generate(EcKey::At(addr))),
            a matches KeyAction::Generate(k) ==> event == KeyEvent::Allocated(k.spec_addr())
                && final(self).creation() == Creation::Generating(k),
    {
        proof {
            use_type_invariant(&*self);
        }
        match event {
            KeyEvent::Start => match self.key_request(policy) {
                Some(nid) => {
                    self.creation = Creation::Allocating;
                    KeyAction::Allocate(nid)
                },
                None => {
                    self.creation = Creation::Idle;
                    KeyAction::Done
                },
            },
            KeyEvent::Allocated(addr) => {
                if self.creation != Creation::Allocating {
                    return KeyAction::Failed(OpensslEccError::UnexpectedEvent);
                }
                match EcKey::from_addr(addr) {
                    Ok(key) => {
                        self.creation = Creation::Generating(key);
                        KeyAction::Generate(key)
                    },
                    Err(e) => {
                        self.creation = Creation::Idle;
                        KeyAction::Failed(e)
                    },
                }
            },
            KeyEvent::Generated(key, rc) => {
                if self.creation != Creation::Generating(key) {
                    return KeyAction::Failed(OpensslEccError::UnexpectedEvent);
                }
                self.creation = Creation::Idle;
                match self.install_generated_key(key, rc) {
                    Ok(()) => KeyAction::Done,
                    Err(e) => KeyAction::Failed(e),
                }
            },
        }
    }

    /// What to pass to `ECDSA_do_sign` for `data_len` bytes of data.
    pub fn sign_request(&self, data_len: usize) -> (r: Result<SignRequest, OpensslEccError>)
        ensures
            r == sign_request_for(self.held(), data_len),
            r matches Ok(req) ==> req.key_addr != 0,
    {
        match &self.key {
            Some(k) => {
                proof {
                    use_type_invariant(self);
                }
                #[verifier::truncate]
                let dgst_len: c_int = data_len as c_int;
                Ok(SignRequest { key_addr: k.addr(), dgst_len })
            },
            None => Err(OpensslEccError::NoKey),
        }
    }
}

/// Checks the address that `ECDSA_do_sign` returned: a null address means
/// that OpenSSL could not sign, any other is a signature to be freed.
pub fn check_signature(sig_addr: usize) -> (r: Result<(), OpensslEccError>)
    ensures
        r is Ok <==> sig_addr != 0,
        r matches Err(e) ==> e == OpensslEccError::Signing,
{
    if sig_addr == 0 {
        Err(OpensslEccError::Signing)
    } else {
        Ok(())
    }
}

/// Once a key was installed, every signature request goes to that key, with
/// the data length converted to a C `int`.
pub proof fn lemma_sign_uses_installed_key(held: Option<usize>, key: usize, data_len: usize)
    ensures
        sign_request_for(key_after_install(held, key, 1), data_len) == Ok::<
            SignRequest,
            OpensslEccError,
        >((SignRequest { key_addr: key, dgst_len: data_len as c_int })),
{
}

/// A failed key generation leaves the key held before in place, and a
/// context that held no key still refuses to sign.
pub proof fn lemma_failed_generation_keeps_key(
    held: Option<usize>,
    key: usize,
    rc: c_int,
    data_len: usize,
)
    requires
        rc != 1,
    ensures
        key_after_install(held, key, rc) == held,
        held is None ==> sign_request_for(key_after_install(held, key, rc), data_len) == Err::<
            SignRequest,
            OpensslEccError,
        >(OpensslEccError::NoKey),
{
}

/// Under `KeepExisting` a key is made at most once: a key is wanted exactly
/// while none is held, and none is wanted once one was installed. Under
/// `Replace` a key is wanted whatever is held.
pub proof fn lemma_key_request_policies(held: Option<usize>, key: usize)
    ensures
        wants_new_key(held, KeyPolicy::KeepExisting) <==> held is None,
        !wants_new_key(key_after_install(held, key, 1), KeyPolicy::KeepExisting),
        wants_new_key(held, KeyPolicy::Replace),
{
}

/// Driving the steps as a caller does (`Start`, then `Allocated` with what
/// `EC_KEY_new_by_curve_name` returned, then `Generated` on that object, as
/// far as the steps ask) makes one whole key creation and leaves no creation
/// under way.
pub proof fn lemma_steps_make_one_creation(
    held: Option<usize>,
    creation: Creation,
    policy: KeyPolicy,
    addr: usize,
    rc: c_int,
)
    ensures
        key_state_after(held, creation, policy, creation_events(held, policy, addr, rc)) == (
            key_after_creation(held, policy, addr, rc),
            Creation::Idle,
        ),
{
    let events = creation_events(held, policy, addr, rc);
    reveal_with_fuel(key_state_after, 4);
    if events.len() == 3 {
        assert(events.drop_first() =~= seq![events[1], events[2]]);
        assert(events.drop_first().drop_first() =~= seq![events[2]]);
        assert(events.drop_first().drop_first().drop_first() =~= Seq::<KeyEvent>::empty());
    } else if events.len() == 2 {
        assert(events.drop_first() =~= seq![events[1]]);
        assert(events.drop_first().drop_first() =~= Seq::<KeyEvent>::empty());
    } else {
        assert(events.drop_first() =~= Seq::<KeyEvent>::empty());
    }
}

/// Under `KeepExisting`, a key once held, with no creation under way, stays
/// held whatever events are reported later: no event replaces it.
pub proof fn lemma_kept_key_stays(key: usize, events: Seq<KeyEvent>)
    ensures
        key_state_after(Some(key), Creation::Idle, KeyPolicy::KeepExisting, events) == (
            Some(key),
            Creation::Idle,
        ),
    decreases events.len(),
{
    if events.len() > 0 {
        lemma_kept_key_stays(key, events.drop_first());
    }
}

/// Under `KeepExisting`, starting with no key, a key held after any
/// sequence of reported events is a non-null object that the steps asked to
/// be generated and on which `EC_KEY_generate_key` was reported to return 1.
pub proof fn lemma_held_key_was_generated(creation: Creation, events: Seq<KeyEvent>)
    requires
        creation matches Creation::Generating(k) ==> k.spec_addr() != 0,
    ensures
        key_state_after(None, creation, KeyPolicy::KeepExisting, events).0 matches Some(k) ==> k
            != 0 && exists|i: int|
            0 <= i < events.len() && #[trigger] events[i] == KeyEvent::Generated(
                EcKey::At(k),
                1 as c_int,
            ),
    decreases events.len(),
{
    if events.len() > 0 {
        let (_, held1, creation1) = key_step(None, creation, KeyPolicy::KeepExisting, events[0]);
        let rest = events.drop_first();
        if held1 is None {
            lemma_held_key_was_generated(creation1, rest);
            let after = key_state_after(None, creation1, KeyPolicy::KeepExisting, rest).0;
            if after is Some {
                let k = after->Some_0;
                let i = choose|i: int|
                    0 <= i < rest.len() && #[trigger] rest[i] == KeyEvent::Generated(
                        EcKey::At(k),
                        1 as c_int,
                    );
                assert(events[i + 1] == rest[i]);
            }
        } else {
            let k = held1->Some_0;
            lemma_kept_key_stays(k, rest);
            assert(events[0] == KeyEvent::Generated(EcKey::At(k), 1 as c_int));
        }
    }
}

/// Every key that a creation asks OpenSSL for is on P-256, whatever key is
/// held, wherever a creation stood and whatever the policy; one is asked for
/// exactly when the policy wants a new key. Under `Replace` the request does
/// not depend on the key held at all.
pub proof fn lemma_start_asks_for_p256(
    held: Option<usize>,
    creation: Creation,
    policy: KeyPolicy,
    other_held: Option<usize>,
    other_creation: Creation,
)
    ensures
        key_step(held, creation, policy, KeyEvent::Start).0 matches KeyAction::Allocate(nid) ==> nid
            == 415,
        key_step(held, creation, policy, KeyEvent::Start).0 is Allocate <==> wants_new_key(
            held,
            policy,
        ),
        key_step(held, creation, policy, KeyEvent::Start).0 is Allocate ==> key_step(
            held,
            creation,
            policy,
            KeyEvent::Start,
        ).2 == Creation::Allocating,
        key_step(held, creation, KeyPolicy::Replace, KeyEvent::Start).0 == key_step(
            other_held,
            other_creation,
            KeyPolicy::Replace,
            KeyEvent::Start,
        ).0,
{
}

/// Once an object was allocated at a non-null address, the key pair is to be
/// generated on that very object, and reporting the outcome of generating it
/// is accepted: a return code of 1 installs exactly that object as the key
/// held, any other leaves the key held before. A report on any other object
/// is refused and changes nothing.
pub proof fn lemma_generate_on_allocated_object(
    held: Option<usize>,
    policy: KeyPolicy,
    addr: usize,
    other: EcKey,
    rc: c_int,
)
    requires
        addr != 0,
    ensures
        key_step(held, Creation::Allocating, policy, KeyEvent::Allocated(addr)).0
            == KeyAction::Generate(EcKey::At(addr)),
        ({
            let (a1, held1, creation1) = key_step(
                held,
                Creation::Allocating,
                policy,
                KeyEvent::Allocated(addr),
            );
            let (a2, held2, creation2) = key_step(
                held1,
                creation1,
                policy,
                KeyEvent::Generated(EcKey::At(addr), rc),
            );
            &&& held1 == held
            &&& (rc == 1 ==> a2 == KeyAction::Done && held2 == Some(addr))
            &&& (rc != 1 ==> a2 == KeyAction::Failed(OpensslEccError::KeyGeneration) && held2
                == held)
            &&& creation2 == Creation::Idle
        }),
        other != EcKey::At(addr) ==> ({
            let (_, held1, creation1) = key_step(
                held,
                Creation::Allocating,
                policy,
                KeyEvent::Allocated(addr),
            );
            key_step(held1, creation1, policy, KeyEvent::Generated(other, rc)) == (
                KeyAction::Failed(OpensslEccError::UnexpectedEvent),
                held1,
                creation1,
            )
        }),
{
}

} // verus!
