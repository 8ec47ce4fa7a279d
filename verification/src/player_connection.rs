//! The decisions that the proxy takes on a player's connection: the state
//! that a handshake leads to, the answer to a status request, and what an
//! answer asks to be sent.
use crate::connection::ConnectionState;
use crate::packet::builder::RawPacketBuilder;
use crate::packet::primitives::number::be_bytes;
use crate::packet::primitives::string::{spec_write_string, MAX_STRING_BYTES};
use crate::packet::primitives::var_int::varint_bytes;
use crate::packet::stream::DecodeErrorView;
use crate::packet::types::handshake::{
    HandshakeIntent, HandshakePacketView, handshake_payload, lemma_handshake_intents, spec_handshake,
};
use crate::packet::types::status::spec_ping_request;
use crate::packet::types::{HandshakePacket, MinecraftPacket, PingRequestPacket};
use crate::packet::{RawPacket, lemma_id_and_payload};
use crate::server::protocol_version::ConnectionProtocolVersion;
use crate::server::status::{ServerStatus, status_json};
use vstd::prelude::*;
use vstd::utf8::encode_utf8;

verus! {

/// What to do after a packet from the player.
#[derive(Debug, PartialEq, Eq, Hash)]
pub enum PacketAction {
    /// Send the player's packet on to the server.
    Forward,
    /// Send the player's packet on to the server, then do the next action.
    ForwardAnd(Box<PacketAction>),
    /// Send this packet back to the player.
    Return(RawPacket),
    /// Send this packet back to the player, then do the next action.
    ReturnAnd(RawPacket, Box<PacketAction>),
    /// Move the connection to this state.
    UpdateState(ConnectionState),
    /// Close the connection.
    Disconnect,
}

/// A packet that an action asks to be sent.
#[derive(Debug, Clone, PartialEq, Eq, Hash)]
pub enum Delivery {
    /// The player's packet, to the server.
    ForwardOriginal,
    /// This packet, to the player.
    ToClient(RawPacket),
}

/// What an action asks: the packets to send, in order, and the state to move
/// to, if any.
pub open spec fn spec_plan(action: PacketAction) -> (Seq<Delivery>, Option<ConnectionState>)
    decreases action,
{
    match action {
        PacketAction::Forward => (seq![Delivery::ForwardOriginal], None),
        PacketAction::ForwardAnd(next) => {
            let rest = spec_plan(*next);
            (seq![Delivery::ForwardOriginal] + rest.0, rest.1)
        },
        PacketAction::Return(packet) => (seq![Delivery::ToClient(packet)], None),
        PacketAction::ReturnAnd(packet, next) => {
            let rest = spec_plan(*next);
            (seq![Delivery::ToClient(packet)] + rest.0, rest.1)
        },
        PacketAction::UpdateState(state) => (Seq::empty(), Some(state)),
        PacketAction::Disconnect => (Seq::empty(), Some(ConnectionState::Closed)),
    }
}

fn plan_into(action: PacketAction, out: &mut Vec<Delivery>) -> (s: Option<ConnectionState>)
    ensures
        final(out)@ == old(out)@ + spec_plan(action).0,
        s == spec_plan(action).1,
    decreases action,
{
    match action {
        PacketAction::Forward => {
            out.push(Delivery::ForwardOriginal);
            None
        },
        PacketAction::ForwardAnd(next) => {
            out.push(Delivery::ForwardOriginal);
            let s = plan_into(*next, out);
            assert(out@ =~= old(out)@ + (seq![Delivery::ForwardOriginal] + spec_plan(*next).0));
            s
        },
        PacketAction::Return(packet) => {
            out.push(Delivery::ToClient(packet));
            None
        },
        PacketAction::ReturnAnd(packet, next) => {
            let ghost p = packet;
            out.push(Delivery::ToClient(packet));
            let s = plan_into(*next, out);
            assert(out@ =~= old(out)@ + (seq![Delivery::ToClient(p)] + spec_plan(*next).0));
            s
        },
        PacketAction::UpdateState(new_state) => {
            assert(out@ =~= old(out)@ + Seq::<Delivery>::empty());
            Some(new_state)
        },
        PacketAction::Disconnect => {
            assert(out@ =~= old(out)@ + Seq::<Delivery>::empty());
            Some(ConnectionState::Closed)
        },
    }
}

/// What an action asks: the packets to send, in order, and the state to move
/// to, if any.
pub fn plan_action(action: PacketAction) -> (r: (Vec<Delivery>, Option<ConnectionState>))
    ensures
        r.0@ == spec_plan(action).0,
        r.1 == spec_plan(action).1,
{
    let mut out: Vec<Delivery> = Vec::new();
    let s = plan_into(action, &mut out);
    assert(out@ =~= spec_plan(action).0);
    (out, s)
}

/// The handshake that a raw packet holds, or why it holds none.
pub open spec fn handshake_of(raw_packet: RawPacket) -> Result<HandshakePacketView, DecodeErrorView> {
    match raw_packet.spec_id() {
        Err(e) => Err(e),
        Ok(_) => spec_handshake(raw_packet.spec_payload()),
    }
}

/// The state that a handshake intent leads to.
pub open spec fn state_after(intent: HandshakeIntent) -> ConnectionState {
    match intent {
        HandshakeIntent::Status => ConnectionState::Status,
        HandshakeIntent::Login => ConnectionState::Login,
        HandshakeIntent::Transfer => ConnectionState::Login,
    }
}

/// The state and protocol version that the player's first packet leads to:
/// those of its handshake, or `LoginDisconnect` with the default version when
/// it holds none.
pub open spec fn handshake_outcome(raw_packet: RawPacket) -> (ConnectionState, ConnectionProtocolVersion) {
    match handshake_of(raw_packet) {
        Ok(h) => (state_after(h.intent), h.protocol_version),
        Err(_) => (ConnectionState::LoginDisconnect, ConnectionProtocolVersion::MC776),
    }
}

/// The state and protocol version that the player's first packet leads to:
/// those of its handshake, or `LoginDisconnect` with the default version when
/// it holds none.
pub fn handle_handshake(raw_packet: &RawPacket) -> (r: (ConnectionState, ConnectionProtocolVersion))
    requires
        raw_packet.wf(),
    ensures
        r == handshake_outcome(*raw_packet),
{
    let packet = match HandshakePacket::from_raw(raw_packet) {
        Ok(value) => value,
        Err(_) => {
            return (ConnectionState::LoginDisconnect, ConnectionProtocolVersion::MC776);
        },
    };
    (
        match packet.intent {
            HandshakeIntent::Status => ConnectionState::Status,
            HandshakeIntent::Login => ConnectionState::Login,
            HandshakeIntent::Transfer => ConnectionState::Login,
        },
        packet.protocol_version,
    )
}

/// The ping request that a raw packet holds, or why it holds none.
pub open spec fn ping_request_of(raw_packet: RawPacket) -> Result<i64, DecodeErrorView> {
    match raw_packet.spec_id() {
        Err(e) => Err(e),
        Ok(_) => spec_ping_request(raw_packet.spec_payload()),
    }
}

/// The answer to a packet in the status state: to a status request (id 0)
/// the status as a JSON string in a packet of id 0; to a ping (id 1) the
/// same number in a packet of id 1, then a disconnect; to any other packet,
/// or a ping that cannot be read, a disconnect.
pub fn handle_status(
    server_status: ServerStatus,
    version_json: &str,
    packet: &RawPacket,
) -> (r: PacketAction)
    requires
        packet.wf(),
        packet.spec_id() is Ok,
        packet.spec_id()->Ok_0.0 == 0 ==> encode_utf8(
            status_json(server_status@, version_json@),
        ).len() < MAX_STRING_BYTES,
    ensures
        match packet.spec_id()->Ok_0.0 {
            0 => {
                &&& r matches PacketAction::Return(answer)
                &&& answer.wf()
                &&& answer.spec_data() == varint_bytes(0) + spec_write_string(
                    status_json(server_status@, version_json@),
                )->Ok_0
            },
            1 => match ping_request_of(*packet) {
                Ok(payload) => r matches PacketAction::ReturnAnd(answer, next) && answer.wf()
                    && answer.spec_data() == varint_bytes(1) + be_bytes(payload as u64, 8) && *next
                    == PacketAction::Disconnect,
                Err(_) => r == PacketAction::Disconnect,
            },
            _ => r == PacketAction::Disconnect,
        },
{
    let id = match packet.id() {
        Ok(id) => id.value(),
        Err(_) => {
            assert(false);
            return PacketAction::Disconnect;
        },
    };
    if id == 0 {
        let json = server_status.to_json_with_version(version_json);
        let builder = RawPacketBuilder::new(0);
        match builder.string(json) {
            Ok(builder) => PacketAction::Return(builder.build()),
            Err(_) => {
                assert(false);
                PacketAction::Disconnect
            },
        }
    } else if id == 1 {
        let ping_request_packet = match PingRequestPacket::from_raw(packet) {
            Ok(value) => value,
            Err(_) => {
                return PacketAction::Disconnect;
            },
        };
        let builder = RawPacketBuilder::new(1);
        match builder.long(ping_request_packet.payload) {
            Ok(builder) => PacketAction::ReturnAnd(
                builder.build(),
                Box::new(PacketAction::Disconnect),
            ),
            Err(_) => {
                assert(false);
                PacketAction::Disconnect
            },
        }
    } else {
        PacketAction::Disconnect
    }
}

/// The work that a connection calls for on its next turn.
#[derive(Debug, Clone, Copy, PartialEq, Eq, Hash, Structural)]
pub enum Step {
    /// Answer the player's status packet.
    AnswerStatus,
    /// Relay packets between the player and the server.
    Relay,
    /// Connect to the server and move on to relaying.
    ConnectBackend,
    /// A state that the proxy does not handle yet.
    Unsupported(ConnectionState),
}

/// The work for a connection in `state`; a player connection that has shut
/// down counts as closed.
pub open spec fn spec_step(state: ConnectionState, player_shut_down: bool) -> Step {
    let state = if player_shut_down {
        ConnectionState::Closed
    } else {
        state
    };
    match state {
        ConnectionState::Status => Step::AnswerStatus,
        ConnectionState::Play => Step::Relay,
        ConnectionState::Login => Step::ConnectBackend,
        other => Step::Unsupported(other),
    }
}

/// The work for a connection in `state`; a player connection that has shut
/// down counts as closed.
pub fn step_for(state: ConnectionState, player_shut_down: bool) -> (r: Step)
    ensures
        r == spec_step(state, player_shut_down),
{
    let state = if player_shut_down {
        ConnectionState::Closed
    } else {
        state
    };
    match state {
        ConnectionState::Status => Step::AnswerStatus,
        ConnectionState::Play => Step::Relay,
        ConnectionState::Login => Step::ConnectBackend,
        other => Step::Unsupported(other),
    }
}

/// Law: a player's first packet, with any packet id, whose payload is a
/// handshake as a client writes it, leads to the status state for intent 1, to
/// the login state for intents 2 and 3, with the handshake's protocol
/// version, and for any other intent number to `LoginDisconnect` with the
/// default version.
pub proof fn lemma_handshake_decides_state(
    raw_packet: RawPacket,
    id: i32,
    version: ConnectionProtocolVersion,
    address: Seq<char>,
    port: u16,
    number: i32,
)
    requires
        raw_packet.wf(),
        raw_packet.spec_data() == varint_bytes(id) + handshake_payload(version, address, port, number),
        encode_utf8(address).len() < MAX_STRING_BYTES,
    ensures
        handshake_outcome(raw_packet) == if number == 1 {
            (ConnectionState::Status, version)
        } else if number == 2 || number == 3 {
            (ConnectionState::Login, version)
        } else {
            (ConnectionState::LoginDisconnect, ConnectionProtocolVersion::MC776)
        },
{
    lemma_id_and_payload(raw_packet, id, handshake_payload(version, address, port, number));
    lemma_handshake_intents(version, address, port, number);
}

/// Law: only a handshake whose intent is a status request leads to the status
/// state, and every other handshake that can be read (a login or a transfer)
/// leads to the login state with its own protocol version; a first packet
/// that holds no handshake leads to `LoginDisconnect`.
pub proof fn lemma_handshake_states(raw_packet: RawPacket)
    ensures
        (handshake_outcome(raw_packet).0 == ConnectionState::Status) == (handshake_of(raw_packet)
            matches Ok(h) && h.intent == HandshakeIntent::Status),
        (handshake_outcome(raw_packet).0 == ConnectionState::Login) == (handshake_of(raw_packet)
            matches Ok(h) && h.intent != HandshakeIntent::Status),
        (handshake_outcome(raw_packet).0 == ConnectionState::LoginDisconnect) == (handshake_of(
            raw_packet,
        ) is Err),
        handshake_of(raw_packet) matches Ok(h) ==> handshake_outcome(raw_packet).1
            == h.protocol_version,
{
}

/// The packets that an action returns to the player, in order.
pub open spec fn returned_packets(action: PacketAction) -> Seq<RawPacket>
    decreases action,
{
    match action {
        PacketAction::Return(packet) => seq![packet],
        PacketAction::ReturnAnd(packet, next) => seq![packet] + returned_packets(*next),
        PacketAction::ForwardAnd(next) => returned_packets(*next),
        _ => Seq::empty(),
    }
}

/// The number of times an action forwards the player's packet.
pub open spec fn forward_count(action: PacketAction) -> nat
    decreases action,
{
    match action {
        PacketAction::Forward => 1,
        PacketAction::ForwardAnd(next) => 1 + forward_count(*next),
        PacketAction::ReturnAnd(_, next) => forward_count(*next),
        _ => 0,
    }
}

/// The packets to the player among some deliveries, in order.
pub open spec fn client_packets(deliveries: Seq<Delivery>) -> Seq<RawPacket>
    decreases deliveries.len(),
{
    if deliveries.len() == 0 {
        Seq::empty()
    } else {
        match deliveries[0] {
            Delivery::ToClient(packet) => seq![packet] + client_packets(deliveries.drop_first()),
            Delivery::ForwardOriginal => client_packets(deliveries.drop_first()),
        }
    }
}

/// The number of forwards of the player's packet among some deliveries.
pub open spec fn forwards_in(deliveries: Seq<Delivery>) -> nat
    decreases deliveries.len(),
{
    if deliveries.len() == 0 {
        0
    } else {
        match deliveries[0] {
            Delivery::ToClient(_) => forwards_in(deliveries.drop_first()),
            Delivery::ForwardOriginal => 1 + forwards_in(deliveries.drop_first()),
        }
    }
}

/// Law: the plan of an action sends the player every packet the action
/// returns, in order, and forwards the player's packet as often as the action
/// says, and nothing else; it moves to a state only when the action ends in a
/// state change: to the state it names, or to `Closed` for a disconnect.
pub proof fn lemma_plan_delivers(action: PacketAction)
    ensures
        client_packets(spec_plan(action).0) == returned_packets(action),
        forwards_in(spec_plan(action).0) == forward_count(action),
        spec_plan(action).0.len() == returned_packets(action).len() + forward_count(action),
        (spec_plan(action).1 is None) <==> !ends_in_state_change(action),
        action == PacketAction::Disconnect ==> spec_plan(action).1 == Some(ConnectionState::Closed),
        action matches PacketAction::UpdateState(state) ==> spec_plan(action).1 == Some(state),
    decreases action,
{
    match action {
        PacketAction::ForwardAnd(next) => {
            lemma_plan_delivers(*next);
            let rest = spec_plan(*next).0;
            let all = seq![Delivery::ForwardOriginal] + rest;
            assert(all.drop_first() =~= rest);
            assert(all[0] == Delivery::ForwardOriginal);
            assert(spec_plan(action).0 == all);
        },
        PacketAction::ReturnAnd(packet, next) => {
            lemma_plan_delivers(*next);
            let rest = spec_plan(*next).0;
            let all = seq![Delivery::ToClient(packet)] + rest;
            assert(all.drop_first() =~= rest);
            assert(all[0] == Delivery::ToClient(packet));
            assert(spec_plan(action).0 == all);
        },
        PacketAction::Forward => {
            let all = seq![Delivery::ForwardOriginal];
            assert(all.drop_first() =~= Seq::<Delivery>::empty());
            assert(all[0] == Delivery::ForwardOriginal);
            assert(client_packets(all.drop_first()) == Seq::<RawPacket>::empty());
            assert(forwards_in(all.drop_first()) == 0);
        },
        PacketAction::Return(packet) => {
            let all = seq![Delivery::ToClient(packet)];
            assert(all.drop_first() =~= Seq::<Delivery>::empty());
            assert(all[0] == Delivery::ToClient(packet));
            assert(client_packets(all.drop_first()) == Seq::<RawPacket>::empty());
            assert(forwards_in(all.drop_first()) == 0);
            assert(seq![packet] + Seq::<RawPacket>::empty() =~= seq![packet]);
        },
        _ => {},
    }
}

/// Whether an action, after its sends, ends by changing the state.
pub open spec fn ends_in_state_change(action: PacketAction) -> bool
    decreases action,
{
    match action {
        PacketAction::ForwardAnd(next) => ends_in_state_change(*next),
        PacketAction::ReturnAnd(_, next) => ends_in_state_change(*next),
        PacketAction::UpdateState(_) => true,
        PacketAction::Disconnect => true,
        _ => false,
    }
}

/// Law: a connection relays packets only in the play state, answers a status
/// request only in the status state and connects to the server only in the
/// login state, each only while the player's connection is up; any other
/// state is left unhandled as itself, and a shut-down connection is left
/// unhandled as closed.
pub proof fn lemma_steps(state: ConnectionState, player_shut_down: bool)
    ensures
        spec_step(state, player_shut_down) == Step::Relay <==> (state == ConnectionState::Play
            && !player_shut_down),
        spec_step(state, player_shut_down) == Step::AnswerStatus <==> (state
            == ConnectionState::Status && !player_shut_down),
        spec_step(state, player_shut_down) == Step::ConnectBackend <==> (state
            == ConnectionState::Login && !player_shut_down),
        player_shut_down ==> spec_step(state, player_shut_down) == Step::Unsupported(
            ConnectionState::Closed,
        ),
        !player_shut_down && (state == ConnectionState::LoginDisconnect || state
            == ConnectionState::Configuration || state == ConnectionState::Closed) ==> spec_step(
            state,
            player_shut_down,
        ) == Step::Unsupported(state),
{
}

} // verus!
