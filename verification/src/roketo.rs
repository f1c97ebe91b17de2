//! The requests to the streaming service. Nothing is sent from here: each
//! function says what one remote call has to carry.

use vstd::prelude::*;
use vstd::string::*;
use crate::external::u128_dec_format::{decimal, serialize};
use crate::external::StreamId;
use crate::game::Player;
use crate::internal::StreamRequest;
use crate::utils::ONE_TERA;

verus! {

/// One request about one stream.
#[derive(Clone, Copy, Debug, PartialEq, Eq)]
pub struct StreamCall {
    pub request: StreamRequest,
    pub stream_id: StreamId,
    /// What is attached to the call, in the token's smallest unit.
    pub deposit: u128,
    /// The gas set aside for the call, where the request fixes it.
    pub gas: Option<u64>,
}

impl StreamCall {
    /// The call for a request: each carries the smallest deposit, and a pause
    /// fifty tera of gas.
    pub open spec fn of(request: StreamRequest, stream_id: StreamId) -> StreamCall {
        StreamCall {
            request,
            stream_id,
            deposit: 1,
            gas: if request == StreamRequest::Pause {
                Option::Some((50 * ONE_TERA) as u64)
            } else {
                Option::None
            },
        }
    }
}

/// One remote call that the settlement asks for.
#[derive(Clone, Copy, Debug, PartialEq, Eq)]
pub enum Call {
    /// A request to the streaming service.
    Stream(StreamCall),
    /// A payment to a player.
    Transfer { to: Player, amount: u128 },
}

/// The request that pauses a stream.
pub fn pause_stream(stream_id: StreamId) -> (r: StreamCall)
    ensures
        r == StreamCall::of(StreamRequest::Pause, stream_id),
{
    StreamCall { request: StreamRequest::Pause, stream_id, deposit: 1, gas: Some(50 * ONE_TERA) }
}

/// The request that ends a stream.
pub fn stop_stream(stream_id: StreamId) -> (r: StreamCall)
    ensures
        r == StreamCall::of(StreamRequest::Stop, stream_id),
{
    StreamCall { request: StreamRequest::Stop, stream_id, deposit: 1, gas: None }
}

/// The request that starts a stream, or takes it up again.
pub fn start_stream(stream_id: StreamId) -> (r: StreamCall)
    ensures
        r == StreamCall::of(StreamRequest::Start, stream_id),
{
    StreamCall { request: StreamRequest::Start, stream_id, deposit: 1, gas: None }
}

/// The request for a stream's call, by what is asked.
pub fn stream_call(request: StreamRequest, stream_id: StreamId) -> (r: StreamCall)
    ensures
        r == StreamCall::of(request, stream_id),
{
    match request {
        StreamRequest::Pause => pause_stream(stream_id),
        StreamRequest::Stop => stop_stream(stream_id),
        StreamRequest::Start => start_stream(stream_id),
    }
}

/// The request for one stream's record.
#[derive(Clone, Copy, Debug, PartialEq, Eq)]
pub struct StreamQuery {
    pub stream_id: StreamId,
}

/// The request for an account of the service.
#[derive(Debug, PartialEq, Eq)]
pub struct AccountQuery {
    pub account_id: String,
    /// Whether the service is to answer only for an account it knows; left
    /// open here.
    pub only_if_exist: Option<bool>,
}

/// The request for a stream's record.
pub fn roketo_get_stream(stream_id: StreamId) -> (r: StreamQuery)
    ensures
        r.stream_id == stream_id,
{
    StreamQuery { stream_id }
}

/// The requests for two streams' records, to be sent together and answered
/// together, the first stream's answer first.
pub fn get_two_streams(stream_id1: StreamId, stream_id2: StreamId) -> (r: (StreamQuery, StreamQuery))
    ensures
        r.0.stream_id == stream_id1,
        r.1.stream_id == stream_id2,
{
    (roketo_get_stream(stream_id1), roketo_get_stream(stream_id2))
}

/// The request for the service's account of `account_id`.
pub fn roketo_get_account(account_id: String) -> (r: AccountQuery)
    ensures
        r.account_id@ == account_id@,
        r.only_if_exist is None,
{
    AccountQuery { account_id, only_if_exist: None }
}

/// What opening a stream takes: the stake and the service's fee are wrapped
/// into the token, then sent to the service with a message that says whom the
/// stream pays and how fast.
#[derive(Debug, PartialEq, Eq)]
pub struct CreateStream {
    /// What is attached to the wrapping call.
    pub deposit: u128,
    /// What is sent on to the service.
    pub amount: u128,
    /// The note that goes with the transfer.
    pub memo: String,
    /// The service's instructions.
    pub message: String,
    /// What is attached to the transfer itself.
    pub transfer_deposit: u128,
    /// The gas set aside for the transfer.
    pub transfer_gas: u64,
}

/// The rate at which a stake drains within the playing time: the stake divided
/// by the seconds, rounded up.
pub open spec fn rate(bid: u128, game_playtime: u32) -> int {
    (bid + game_playtime - 1) / (game_playtime as int)
}

/// The service's fee for a stream: a tenth of the stake, rounded up.
pub open spec fn stream_fee(bid: u128) -> int {
    (bid + 9) / 10
}

/// The message that asks the service for a stream.
pub open spec fn create_message(bid: u128, owner_id: Seq<char>, receiver_id: Seq<char>, tokens_per_sec: nat) -> Seq<
    char,
> {
    "{\"Create\":{\"request\":{\"balance\":\""@ + decimal(bid as nat) + "\", \"owner_id\":\""@ + owner_id
        + "\",\"receiver_id\":\""@ + receiver_id
        + "\",\"token_name\": \"wrap.testnet\", \"tokens_per_sec\":\""@ + decimal(tokens_per_sec)
        + "\"}}}"@
}

impl CreateStream {
    /// Whether this is what opening the stream of a stake of `bid` takes, for
    /// a stream that drains within `game_playtime` seconds, is owned by
    /// `owner_id` and pays `receiver_id`: the stake and the fee are wrapped
    /// and sent on, with the smallest deposit and fifty tera of gas.
    pub open spec fn opens(self, bid: u128, game_playtime: u32, owner_id: Seq<char>, receiver_id: Seq<char>) -> bool {
        &&& self.deposit == bid + stream_fee(bid)
        &&& self.amount == bid + stream_fee(bid)
        &&& self.memo@ == "Roketo transfer"@
        &&& self.message@ == create_message(bid, owner_id, receiver_id, rate(bid, game_playtime) as nat)
        &&& self.transfer_deposit == 1
        &&& self.transfer_gas == 50 * ONE_TERA
    }
}

/// What it takes to open the stream of a stake of `bid` that drains within
/// `game_playtime` seconds, owned by `owner_id` and paid to `receiver_id`.
pub fn roketo_create_stream(bid: u128, game_playtime: u32, owner_id: &String, receiver_id: &String) -> (r:
    CreateStream)
    requires
        game_playtime > 0,
        bid + game_playtime <= u128::MAX,
        bid + stream_fee(bid) <= u128::MAX,
    ensures
        r.opens(bid, game_playtime, owner_id@, receiver_id@),
{
    let seconds: u128 = game_playtime as u128;
    let tokens_per_sec: u128 = (bid + seconds - 1) / seconds;
    let fee: u128 = (bid + 9) / 10;
    let mut message = String::from_str("{\"Create\":{\"request\":{\"balance\":\"");
    message.append(serialize(&bid).as_str());
    message.append("\", \"owner_id\":\"");
    message.append(owner_id.as_str());
    message.append("\",\"receiver_id\":\"");
    message.append(receiver_id.as_str());
    message.append("\",\"token_name\": \"wrap.testnet\", \"tokens_per_sec\":\"");
    message.append(serialize(&tokens_per_sec).as_str());
    message.append("\"}}}");
    CreateStream {
        deposit: bid + fee,
        amount: bid + fee,
        memo: String::from_str("Roketo transfer"),
        message,
        transfer_deposit: 1,
        transfer_gas: 50 * ONE_TERA,
    }
}

} // verus!
