//! The state and the rules of a contract that probes what the system offers
//! to contracts: a flag that callers set and read, and a mark that tells
//! whether the end-of-block hook has run.

use vstd::prelude::*;

verus! {

/// The address of an account or contract.
pub type AccountId = [u8; 32];

/// An amount of the chain's currency, in its smallest unit.
pub type Balance = u128;

/// The smallest units of currency that a deposit needs for one unit of
/// contract weight.
pub const CENTS: Balance = 10_000_000_000;

/// What the contract's side program can be asked.
#[derive(Clone, Copy, Debug, PartialEq, Eq)]
pub enum SidevmQuery {
    /// Answer at once.
    Ping,
    /// Call the contract back.
    Callback,
}

/// The question that an action's name stands for.
pub open spec fn query_named(action: Seq<char>) -> Option<SidevmQuery> {
    if action == "ping"@ {
        Some(SidevmQuery::Ping)
    } else if action == "callback"@ {
        Some(SidevmQuery::Callback)
    } else {
        None
    }
}

/// The contract weight that a deposit buys: one unit for each [`CENTS`], cut
/// to 32 bits.
pub open spec fn weight_of(deposit: Balance) -> u32 {
    ((deposit / CENTS) % 0x1_0000_0000) as u32
}

/// The state of the contract.
#[derive(Debug)]
pub struct CheckSystem {
    on_block_end_called: bool,
    flag: String,
}

/// The contract's state as the clauses speak of it.
pub ghost struct CheckSystemView {
    pub on_block_end_called: bool,
    pub flag: Seq<char>,
}

impl View for CheckSystem {
    type V = CheckSystemView;

    closed spec fn view(&self) -> CheckSystemView {
        CheckSystemView { on_block_end_called: self.on_block_end_called, flag: self.flag@ }
    }
}

fn same_account(a: &AccountId, b: &AccountId) -> (out: bool)
    ensures
        out == (a@ == b@),
{
    let mut i: usize = 0;
    while i < 32
        invariant
            i <= 32,
            forall|k: int| 0 <= k < i ==> a@[k] == b@[k],
        decreases 32 - i,
    {
        if a[i] != b[i] {
            return false;
        }
        i += 1;
    }
    assert(a@ =~= b@);
    true
}

fn same_text(a: &str, b: &str) -> (out: bool)
    ensures
        out == (a@ == b@),
{
    a.to_owned() == b.to_owned()
}

impl CheckSystem {
    /// A contract whose hook has not run and whose flag is empty.
    pub fn default() -> (out: CheckSystem)
        ensures
            !out@.on_block_end_called,
            out@.flag == Seq::<char>::empty(),
    {
        CheckSystem { on_block_end_called: false, flag: String::new() }
    }

    /// Whether the end-of-block hook has run.
    pub fn on_block_end_called(&self) -> (out: bool)
        ensures
            out == self@.on_block_end_called,
    {
        self.on_block_end_called
    }

    /// Replaces the flag.
    pub fn set_flag(&mut self, flag: String)
        ensures
            final(self)@.flag == flag@,
            final(self)@.on_block_end_called == old(self)@.on_block_end_called,
    {
        self.flag = flag;
    }

    /// The flag.
    pub fn flag(&self) -> (out: String)
        ensures
            out@ == self@.flag,
    {
        self.flag.clone()
    }

    /// The end-of-block hook. It counts only where the contract called
    /// itself: where `caller` is the contract's own `account_id`.
    pub fn on_block_end(&mut self, caller: &AccountId, account_id: &AccountId)
        ensures
            final(self)@.on_block_end_called == (old(self)@.on_block_end_called || caller@
                == account_id@),
            final(self)@.flag == old(self)@.flag,
    {
        if !same_account(caller, account_id) {
            return ;
        }
        self.on_block_end_called = true
    }

    /// What the side program answers to a callback.
    pub fn sidevm_callbak(&self) -> (out: u8)
        ensures
            out == 42,
    {
        42
    }

    /// The question to put to the side program for an action's name: `ping`
    /// or `callback`. Any other name is refused.
    pub fn query_sidevm(&self, action: &str) -> (out: Result<SidevmQuery, String>)
        ensures
            match out {
                Ok(query) => query_named(action@) == Some(query),
                Err(message) => query_named(action@) is None && message@ == "Invalid action"@,
            },
    {
        if same_text(action, "ping") {
            Ok(SidevmQuery::Ping)
        } else if same_text(action, "callback") {
            Ok(SidevmQuery::Callback)
        } else {
            Err("Invalid action".to_owned())
        }
    }

    /// The weight to give a contract for its deposit.
    pub fn deposit_weight(deposit: Balance) -> (out: u32)
        ensures
            out == weight_of(deposit),
    {
        let weight: Balance = deposit / CENTS;
        (weight % 0x1_0000_0000) as u32
    }
}

} // verus!
