//! Hosts of a run: their role, id and address.

use crate::error::OrchResult;
use crate::state::state;
use crate::text::{ascii_bytes, decimal, push_ascii, to_decimal};
use vstd::prelude::*;
use vstd::string::*;

verus! {

/// The role of a host in a run.
#[derive(Clone, Copy, PartialEq, Eq, Debug, Structural)]
pub enum EndpointType {
    Server,
    Client,
}

impl EndpointType {
    /// The role's name: `Server` or `Client`.
    pub open spec fn spec_as_str(self) -> Seq<char> {
        match self {
            EndpointType::Server => "Server"@,
            EndpointType::Client => "Client"@,
        }
    }

    /// The role's name.
    pub fn as_str(&self) -> (r: &'static str)
        ensures
            r@ == self.spec_as_str(),
    {
        match self {
            EndpointType::Server => "Server",
            EndpointType::Client => "Client",
        }
    }
}

/// A launched host: its role, its EC2 instance id and its public address.
#[derive(Clone, Debug)]
pub struct InstanceDetail {
    pub endpoint_type: EndpointType,
    pub instance_id: String,
    pub ip: String,
}

impl InstanceDetail {
    /// A host with the given role, id and address.
    pub fn new(endpoint_type: EndpointType, instance_id: String, ip: String) -> (r: InstanceDetail)
        ensures
            r.endpoint_type == endpoint_type,
            r.instance_id@ == instance_id@,
            r.ip@ == ip@,
    {
        InstanceDetail { endpoint_type, instance_id, ip }
    }

    /// The host's instance id.
    pub fn instance_id(&self) -> (r: OrchResult<&str>)
        ensures
            r matches Ok(id) && id@ == self.instance_id@,
    {
        Ok(self.instance_id.as_str())
    }
}

/// The standard base64 encoding, with padding, of `data`.
pub uninterp spec fn base64_standard_encoding(data: Seq<u8>) -> Seq<char>;

/// Calls `base64::Engine::encode` with the standard engine. The contract
/// claims that the result is `base64_standard_encoding` of the input, and,
/// as the crate's `encoded_len` computes it for padded output, four
/// characters for each started group of three input bytes. The bound on
/// the input keeps that length computation from overflowing, where the
/// crate panics.
#[verifier::external_body]
fn base64_encode(data: &[u8]) -> (r: String)
    requires
        data@.len() < 0x1000_0000,
    ensures
        r@ == base64_standard_encoding(data@),
        r@.len() == 4 * ((data@.len() + 2) / 3),
{
    base64::Engine::encode(&base64::engine::general_purpose::STANDARD, data)
}

/// The script a host runs at boot: shut down after the deployment's
/// number of minutes.
pub open spec fn user_data_script() -> Seq<char> {
    "sudo shutdown -P +"@ + decimal(state().shutdown_min as nat)
}

/// The user data a host is launched with: the boot script, base64 encoded.
pub fn instance_user_data() -> (r: String)
    ensures
        r@ == base64_standard_encoding(ascii_bytes(user_data_script())),
{
    let minutes = to_decimal(state().shutdown_min as u64);
    let mut script: Vec<u8> = Vec::new();
    push_ascii(&mut script, "sudo shutdown -P +");
    push_ascii(&mut script, minutes.as_str());
    proof {
        reveal_strlit("sudo shutdown -P +");
        assert(decimal(120nat).len() == 3) by {
            reveal_with_fuel(decimal, 4);
        }
        assert(ascii_bytes("sudo shutdown -P +"@ + decimal(120nat)) =~= ascii_bytes(
            "sudo shutdown -P +"@,
        ) + ascii_bytes(decimal(120nat)));
    }
    base64_encode(script.as_slice())
}

} // verus!
