//! The pairing agent's answers. The service's prompts block until answered;
//! the agent answers at once and forwards what the user must see as a PIN
//! event, so the worker never waits on the interface.
use vstd::prelude::*;
use crate::text::{decimal_string, zero_padded, string_of, chars_of};
use crate::types::{Address, BtEvent};
use vstd::string::StringExecFns;

verus! {

/// A prompt from the Bluetooth service.
#[derive(Debug)]
pub enum AgentRequest {
    Confirmation { device: Address, passkey: u32 },
    DisplayPasskey { device: Address, passkey: u32 },
    RequestPasskey { device: Address },
    DisplayPinCode { device: Address, pincode: String },
    RequestPinCode { device: Address },
    Authorization { device: Address },
}

/// The answer handed back to the service.
#[derive(Debug)]
pub enum AgentReply {
    Accept,
    Passkey(u32),
    PinCode(String),
}

/// A passkey as six digits, zero-padded on the left.
pub fn format_passkey(passkey: u32) -> (r: String)
    ensures
        r@ == zero_padded(passkey as nat, 6),
{
    let digits = decimal_string(passkey as u64);
    let d = chars_of(digits.as_str());
    let mut out: Vec<char> = Vec::new();
    let mut k: usize = d.len();
    while k < 6
        invariant
            d.len() <= k <= 6 || (d.len() > 6 && k == d.len()),
            out@ == Seq::new((k - d.len()) as nat, |i: int| '0'),
        decreases 6 - k,
    {
        out.push('0');
        assert(out@ =~= Seq::new((k + 1 - d.len()) as nat, |i: int| '0'));
        k += 1;
    }
    let mut i: usize = 0;
    let ghost pad = out@;
    while i < d.len()
        invariant
            i <= d@.len(),
            out@ == pad + d@.subrange(0, i as int),
        decreases d@.len() - i,
    {
        out.push(d[i]);
        assert(d@.subrange(0, i + 1) =~= d@.subrange(0, i as int).push(d@[i as int]));
        i += 1;
    }
    assert(d@.subrange(0, d@.len() as int) =~= d@);
    assert(out@ =~= zero_padded(passkey as nat, 6));
    string_of(&out)
}

/// The fixed passkey given when the service asks for one.
pub const DEFAULT_PASSKEY: u32 = 0;

/// What the agent answers, and the PIN event it forwards, for a prompt.
pub open spec fn agent_answer_ok(req: AgentRequest, ev: Option<BtEvent>, reply: AgentReply) -> bool {
    match req {
        AgentRequest::Confirmation { device, passkey } | AgentRequest::DisplayPasskey {
            device,
            passkey,
        } => reply == AgentReply::Accept && match ev {
            Some(BtEvent::PinRequest { address, pin }) => address == device && pin@ == zero_padded(
                passkey as nat,
                6,
            ),
            _ => false,
        },
        AgentRequest::RequestPasskey { .. } => ev is None && reply == AgentReply::Passkey(0),
        AgentRequest::DisplayPinCode { device, pincode } => reply == AgentReply::Accept && ev
            == Some(BtEvent::PinRequest { address: device, pin: pincode }),
        AgentRequest::RequestPinCode { .. } => ev is None && match reply {
            AgentReply::PinCode(p) => p@ == seq!['0', '0', '0', '0'],
            _ => false,
        },
        AgentRequest::Authorization { .. } => ev is None && reply == AgentReply::Accept,
    }
}

/// Answers a prompt at once: passkeys to confirm or show are forwarded as a
/// six-digit PIN and accepted without waiting; requests for a passkey or a
/// PIN code get fixed defaults; a PIN code to show is forwarded; an
/// authorization is granted.
pub fn answer(req: AgentRequest) -> (r: (Option<BtEvent>, AgentReply))
    ensures
        agent_answer_ok(req, r.0, r.1),
{
    match req {
        AgentRequest::Confirmation { device, passkey } => (
            Some(BtEvent::PinRequest { address: device, pin: format_passkey(passkey) }),
            AgentReply::Accept,
        ),
        AgentRequest::DisplayPasskey { device, passkey } => (
            Some(BtEvent::PinRequest { address: device, pin: format_passkey(passkey) }),
            AgentReply::Accept,
        ),
        AgentRequest::RequestPasskey { .. } => (None, AgentReply::Passkey(DEFAULT_PASSKEY)),
        AgentRequest::DisplayPinCode { device, pincode } => (
            Some(BtEvent::PinRequest { address: device, pin: pincode }),
            AgentReply::Accept,
        ),
        AgentRequest::RequestPinCode { .. } => {
            let pin = string_of(&vec!['0', '0', '0', '0']);
            (None, AgentReply::PinCode(pin))
        },
        AgentRequest::Authorization { .. } => (None, AgentReply::Accept),
    }
}

} // verus!
