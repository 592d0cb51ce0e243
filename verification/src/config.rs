//! What the relay is started with.

use crate::validate::{parse_address, Address};
use crate::parsing::address_of_text;
use vstd::prelude::*;

verus! {

/// The number of requests that may wait for the submitter at once.
pub const QUEUE_CAPACITY: usize = 100;

/// The settings given on the command line or in the environment.
#[derive(Clone, Debug, PartialEq, Eq)]
pub struct Args {
    /// URL of the node that transactions are broadcast through.
    pub evm_http_rpc: String,
    /// Private key that signs the transactions.
    pub private_key: String,
    /// Address of the exchange contract.
    pub rift_exchange_address: String,
}

impl Args {
    /// The exchange contract's address, if the text given for it is one.
    pub fn contract_address(&self) -> (address: Option<Address>)
        ensures
            address is Some <==> address_of_text(self.rift_exchange_address@) is Some,
            address is Some ==> address->0.bytes@ == address_of_text(
                self.rift_exchange_address@,
            )->0,
    {
        parse_address(self.rift_exchange_address.as_str())
    }
}

} // verus!
