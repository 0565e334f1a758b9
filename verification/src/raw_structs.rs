//! The records of the combat log: an event, and the agents that take part
//! in it; and what stands for a function pointer.

use crate::text::{str_from_bytes, text_of_bytes};
use vstd::prelude::*;

verus! {

/// The address of a function that the host is to call. A null pointer is no
/// `Callback`: a slot that may be empty holds an `Option<Callback>`.
#[derive(Clone, Copy, Debug, PartialEq, Eq)]
pub struct Callback {
    addr: usize,
}

impl Callback {
    #[verifier::type_invariant]
    closed spec fn inv(self) -> bool {
        self.addr != 0
    }

    /// The address of the function.
    pub closed spec fn spec_addr(self) -> usize {
        self.addr
    }

    /// The callback at an address, or `None` for the null pointer.
    pub fn new(addr: usize) -> (callback: Option<Callback>)
        ensures
            callback is Some <==> addr != 0,
            callback is Some ==> callback->0.spec_addr() == addr,
    {
        if addr != 0 {
            Some(Callback { addr })
        } else {
            None
        }
    }

    /// The address of the function, which is never null.
    pub fn addr(&self) -> (addr: usize)
        ensures
            addr == self.spec_addr(),
            addr != 0,
    {
        proof {
            use_type_invariant(self);
        }
        self.addr
    }
}

/// One event of the combat log, as the host lays it out.
#[derive(Clone, Copy, Debug, PartialEq, Eq, Structural)]
pub struct CombatEvent {
    pub time: u64,
    pub src_agent: usize,
    pub dst_agent: usize,
    pub value: i32,
    pub buff_dmg: i32,
    pub overstack_value: u32,
    pub skill_id: u32,
    pub src_instid: u16,
    pub dst_instid: u16,
    pub src_master_instid: u16,
    pub dst_master_instid: u16,
    pub iff: u8,
    pub buff: u8,
    pub result: u8,
    pub is_activation: u8,
    pub is_buff_remove: u8,
    pub is_ninety: u8,
    pub is_fifty: u8,
    pub is_moving: u8,
    pub is_statechange: u8,
    pub is_flanking: u8,
    pub is_shields: u8,
    pub is_off_cycle: u8,
    pub pad61: u8,
    pub pad62: u8,
    pub pad63: u8,
    pub pad64: u8,
}

/// What a `RawAgent` holds: its fields, the name as the bytes of the C
/// string.
pub struct RawAgentView {
    pub name: Option<Seq<u8>>,
    pub id: usize,
    pub prof: u32,
    pub elite: u32,
    pub self_: u32,
    pub team: u16,
}

/// An agent of the combat log, as the host passes it.
pub struct RawAgent<'a> {
    /// The bytes of the null terminated name up to the terminator; `None`
    /// for a null pointer. Only valid for the duration of the fight.
    pub name: Option<&'a [u8]>,
    pub id: usize,
    pub prof: u32,
    pub elite: u32,
    pub self_: u32,
    pub team: u16,
}

impl<'a> View for RawAgent<'a> {
    type V = RawAgentView;

    open spec fn view(&self) -> RawAgentView {
        RawAgentView {
            name: match self.name {
                Some(name) => Some(name@),
                None => None,
            },
            id: self.id,
            prof: self.prof,
            elite: self.elite,
            self_: self.self_,
            team: self.team,
        }
    }
}

/// What an `Agent` says: its fields, the name as the text it holds.
pub struct AgentView {
    pub name: Option<Seq<char>>,
    pub id: usize,
    pub prof: u32,
    pub elite: u32,
    pub self_: u32,
    pub team: u16,
}

/// An agent of the combat log, as a plugin reads it.
#[derive(Debug)]
pub struct Agent<'a> {
    pub name: Option<&'a str>,
    pub id: usize,
    pub prof: u32,
    pub elite: u32,
    pub self_: u32,
    pub team: u16,
}

impl<'a> View for Agent<'a> {
    type V = AgentView;

    open spec fn view(&self) -> AgentView {
        AgentView {
            name: match self.name {
                Some(name) => Some(name@),
                None => None,
            },
            id: self.id,
            prof: self.prof,
            elite: self.elite,
            self_: self.self_,
            team: self.team,
        }
    }
}

/// The agent that a raw agent reads as: the same numbers, and the name as
/// text.
pub open spec fn agent_of_raw(raw: RawAgentView) -> AgentView {
    AgentView {
        name: match raw.name {
            Some(bytes) => Some(text_of_bytes(bytes)),
            None => None,
        },
        id: raw.id,
        prof: raw.prof,
        elite: raw.elite,
        self_: raw.self_,
        team: raw.team,
    }
}

impl<'a> Agent<'a> {
    /// Reads a raw agent. A name that is no well-formed UTF-8 reads as the
    /// empty name.
    pub fn from_raw(raw: &RawAgent<'a>) -> (agent: Agent<'a>)
        ensures
            agent@ == agent_of_raw(raw@),
    {
        Agent {
            name: match raw.name {
                Some(bytes) => Some(str_from_bytes(bytes)),
                None => None,
            },
            id: raw.id,
            prof: raw.prof,
            elite: raw.elite,
            self_: raw.self_,
            team: raw.team,
        }
    }
}

} // verus!
