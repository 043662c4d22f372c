//! The gateways of one process, each under its name. Every operation on a
//! name that the table does not hold fails with "not found".

use crate::clock::Timestamp;
use crate::mqtt::config::{MqttConfig, MqttError, QoS};
use crate::mqtt::gateway::{
    heartbeat_topic, is_publish_plan, planned_connection, uptime, ConnectionPlan, GatewayModel,
    GatewayStats, HeartbeatPlan, MqttGateway, PublishOutcome, PublishPlan,
};
use crate::protocol::packet::MeshPacket;
use crate::table::{lemma_position_is, name_views, position_of, NamedTable};
use vstd::prelude::*;

verus! {

/// The interval of the heartbeat of a gateway that the manager starts, in
/// seconds.
pub const HEARTBEAT_INTERVAL_SECS: u64 = 300;

/// What starting a gateway takes, as one unit: the connection with its
/// subscriptions, the event loop, and the heartbeat at the given interval.
#[derive(Debug, PartialEq, Eq)]
pub struct GatewayStart {
    pub connection: ConnectionPlan,
    pub heartbeat_interval_secs: u64,
}

/// Whether an error is the one for a name that the table does not hold.
pub open spec fn is_not_found(e: MqttError, name: Seq<char>) -> bool {
    e is Configuration && e.detail() == "Gateway '"@ + name + "' not found"@
}

/// The gateways of one process, each under its name.
pub struct MqttGatewayManager {
    gateways: NamedTable<MqttGateway>,
}

impl MqttGatewayManager {
    /// The names of the gateways, in the order in which they were added.
    pub closed spec fn names(&self) -> Seq<Seq<char>> {
        self.gateways.names()
    }

    /// The gateways, each at the position of its name.
    pub closed spec fn models(&self) -> Seq<GatewayModel> {
        Seq::new(self.gateways.values().len(), |i: int| self.gateways.values()[i]@)
    }

    /// Every name has its gateway, and no name occurs twice.
    pub closed spec fn wf(&self) -> bool {
        self.gateways.valid()
    }

    /// The gateway under a name, if there is one.
    pub open spec fn gateway(&self, name: Seq<char>) -> Option<GatewayModel> {
        match position_of(self.names(), name) {
            Some(i) => Some(self.models()[i]),
            None => None,
        }
    }

    /// Whether another manager holds the same gateways under the same names.
    pub open spec fn unchanged(&self, other: &Self) -> bool {
        other.names() == self.names() && other.models() == self.models()
    }

    /// The manager with the gateway under `name` replaced.
    pub open spec fn with_gateway(
        &self,
        other: &Self,
        name: Seq<char>,
        gateway: GatewayModel,
    ) -> bool {
        &&& other.names() == self.names()
        &&& position_of(self.names(), name) matches Some(i) && other.models()
            == self.models().update(i, gateway)
    }

    /// A manager without gateways.
    pub fn new() -> (manager: MqttGatewayManager)
        ensures
            manager.wf(),
            manager.names() == Seq::<Seq<char>>::empty(),
            manager.models() == Seq::<GatewayModel>::empty(),
    {
        let manager = MqttGatewayManager { gateways: NamedTable::new() };
        manager
    }

    /// Adds a gateway with the given settings under a name: not connected,
    /// with an empty directory and all counts at zero. A gateway that
    /// stood under the name is replaced. The call never fails.
    pub fn add_gateway(&mut self, name: String, config: MqttConfig) -> (result: Result<
        (),
        MqttError,
    >)
        requires
            old(self).wf(),
        ensures
            final(self).wf(),
            result is Ok,
            final(self).gateway(name@) == Some(
                GatewayModel {
                    config,
                    connected: false,
                    nodes: Map::empty(),
                    stats: GatewayStats::zero(),
                },
            ),
            match position_of(old(self).names(), name@) {
                Some(i) => final(self).names() == old(self).names() && final(self).models()
                    == old(self).models().update(i, final(self).gateway(name@)->0),
                None => final(self).names() == old(self).names().push(name@) && final(
                    self
                ).models() == old(self).models().push(final(self).gateway(name@)->0),
            },
    {
        let gateway = match MqttGateway::new(config) {
            Ok(gateway) => gateway,
            Err(e) => {
                return Err(e);
            },
        };
        let ghost at = position_of(self.names(), name@);
        self.gateways.insert(name, gateway);
        proof {
            if at is None {
                lemma_position_is(self.names(), name@, old(self).names().len() as int);
            }
        }
        Ok(())
    }

    /// What starting the gateway under a name takes. Fails with "not
    /// found" for a name that the table does not hold, and with an
    /// invalid-URL error where the broker URL does not parse or names no host.
    pub fn connect_gateway(&self, name: &str) -> (start: Result<GatewayStart, MqttError>)
        requires
            self.wf(),
        ensures
            match self.gateway(name@) {
                None => start matches Err(e) && is_not_found(e, name@),
                Some(gateway) => match planned_connection(gateway.config) {
                    Ok(view) => start matches Ok(s) && s.connection@ == view
                        && s.heartbeat_interval_secs == HEARTBEAT_INTERVAL_SECS,
                    Err(text) => start matches Err(e) && e is InvalidUrl && e.detail() == text,
                },
            },
    {
        match self.gateways.find(name) {
            None => Err(MqttError::not_found(name)),
            Some(i) => match self.gateways.get(i).connect() {
                Ok(connection) => Ok(
                    GatewayStart { connection, heartbeat_interval_secs: HEARTBEAT_INTERVAL_SECS },
                ),
                Err(e) => Err(e),
            },
        }
    }

    /// Notes that the gateway under a name is connected and subscribed.
    /// Fails with "not found" for a name that the table does not hold.
    pub fn on_gateway_connected(&mut self, name: &str) -> (result: Result<(), MqttError>)
        requires
            old(self).wf(),
            old(self).gateway(name@) matches Some(g) ==> g.stats.mqtt_connections < u64::MAX,
        ensures
            final(self).wf(),
            match old(self).gateway(name@) {
                None => old(self).unchanged(final(self)) && (result matches Err(e) && is_not_found(
                    e,
                    name@,
                )),
                Some(gateway) => result is Ok && old(self).with_gateway(
                    final(self),
                    name@,
                    GatewayModel {
                        connected: true,
                        stats: GatewayStats {
                            mqtt_connections: (gateway.stats.mqtt_connections + 1) as u64,
                            ..gateway.stats
                        },
                        ..gateway
                    },
                ),
            },
    {
        match self.gateways.find(name) {
            None => Err(MqttError::not_found(name)),
            Some(i) => {
                let gateway = self.gateways.get_mut(i);
                gateway.on_connected();
                assert(self.models() =~= old(self).models().update(
                    i as int,
                    self.gateways.values()[i as int]@,
                ));
                Ok(())
            },
        }
    }

    /// Whether the gateway under a name holds a connection that is to be
    /// ended before `disconnect_gateway`. Fails with "not found" for a
    /// name that the table does not hold.
    pub fn is_gateway_connected(&self, name: &str) -> (connected: Result<bool, MqttError>)
        requires
            self.wf(),
        ensures
            match self.gateway(name@) {
                None => connected matches Err(e) && is_not_found(e, name@),
                Some(gateway) => connected == Ok::<bool, MqttError>(gateway.connected),
            },
    {
        match self.gateways.find(name) {
            None => Err(MqttError::not_found(name)),
            Some(i) => Ok(self.gateways.get(i).is_connected()),
        }
    }

    /// Disconnects the gateway under a name, given the result of telling
    /// the broker goodbye (see `MqttGateway::disconnect`). Fails with
    /// "not found" for a name that the table does not hold.
    pub fn disconnect_gateway(&mut self, name: &str, goodbye: Result<(), String>) -> (result:
        Result<(), MqttError>)
        requires
            old(self).wf(),
            old(self).gateway(name@) matches Some(g) ==> g.stats.mqtt_disconnections < u64::MAX,
        ensures
            final(self).wf(),
            match old(self).gateway(name@) {
                None => old(self).unchanged(final(self)) && (result matches Err(e) && is_not_found(
                    e,
                    name@,
                )),
                Some(gateway) => match goodbye {
                    Ok(_) => result is Ok && old(self).with_gateway(
                        final(self),
                        name@,
                        GatewayModel {
                            connected: false,
                            stats: GatewayStats {
                                mqtt_disconnections: (gateway.stats.mqtt_disconnections + 1) as u64,
                                ..gateway.stats
                            },
                            ..gateway
                        },
                    ),
                    Err(cause) => old(self).with_gateway(final(self), name@, gateway) && (
                    result matches Err(e) && e is ConnectionFailed && e.detail()
                        == "Failed to disconnect: "@ + cause@),
                },
            },
    {
        match self.gateways.find(name) {
            None => Err(MqttError::not_found(name)),
            Some(i) => {
                let gateway = self.gateways.get_mut(i);
                let result = gateway.disconnect(goodbye);
                assert(self.models() =~= old(self).models().update(
                    i as int,
                    self.gateways.values()[i as int]@,
                ));
                result
            },
        }
    }

    /// Takes in a packet at `now` on behalf of the gateway under a name
    /// (see `MqttGateway::process_mesh_packet`). Fails with "not found" for a
    /// name that the table does not hold.
    pub fn process_packet(&mut self, gateway_name: &str, packet: MeshPacket, now: Timestamp) -> (plan:
        Result<Option<PublishPlan>, MqttError>)
        requires
            old(self).wf(),
        ensures
            final(self).wf(),
            final(self).names() == old(self).names(),
            match old(self).gateway(gateway_name@) {
                None => final(self).models() == old(self).models() && (plan matches Err(e) && is_not_found(
                    e,
                    gateway_name@,
                )),
                Some(gateway) => {
                    &&& final(self).gateway(gateway_name@) matches Some(after)
                    &&& old(self).with_gateway(final(self), gateway_name@, after)
                    &&& gateway.directory_after(packet, after.nodes)
                    &&& after.config == gateway.config
                    &&& after.connected == gateway.connected
                    &&& after.stats == gateway.stats
                    &&& plan matches Ok(p)
                    &&& gateway.connected ==> (p matches Some(publish) && is_publish_plan(
                        publish,
                        gateway.config,
                        packet,
                        now,
                    ))
                    &&& !gateway.connected ==> p is None
                },
            },
    {
        match self.gateways.find(gateway_name) {
            None => Err(MqttError::not_found(gateway_name)),
            Some(i) => {
                let gateway = self.gateways.get_mut(i);
                let plan = gateway.process_mesh_packet(packet, now);
                assert(self.models() =~= old(self).models().update(
                    i as int,
                    self.gateways.values()[i as int]@,
                ));
                Ok(plan)
            },
        }
    }

    /// Takes the result of the publish that `process_packet` asked for
    /// (see `MqttGateway::finish_packet`). Fails with "not found" for a
    /// name that the table does not hold.
    pub fn finish_packet(&mut self, gateway_name: &str, outcome: PublishOutcome, now: Timestamp) -> (result:
        Result<(), MqttError>)
        requires
            old(self).wf(),
            old(self).gateway(gateway_name@) matches Some(g) ==> g.stats.has_room_for(outcome),
        ensures
            final(self).wf(),
            match old(self).gateway(gateway_name@) {
                None => old(self).unchanged(final(self)) && (result matches Err(e) && is_not_found(
                    e,
                    gateway_name@,
                )),
                Some(gateway) => {
                    &&& old(self).with_gateway(
                        final(self),
                        gateway_name@,
                        GatewayModel { stats: gateway.stats_after(outcome, now), ..gateway },
                    )
                    &&& match outcome {
                        PublishOutcome::Failed(e) => result == Err::<(), MqttError>(e),
                        _ => result is Ok,
                    }
                },
            },
    {
        match self.gateways.find(gateway_name) {
            None => Err(MqttError::not_found(gateway_name)),
            Some(i) => {
                let gateway = self.gateways.get_mut(i);
                let result = gateway.finish_packet(outcome, now);
                assert(self.models() =~= old(self).models().update(
                    i as int,
                    self.gateways.values()[i as int]@,
                ));
                result
            },
        }
    }

    /// What the heartbeat of the gateway under a name publishes at `now`
    /// (see `MqttGateway::heartbeat`). Fails with "not found" for a name
    /// that the table does not hold.
    pub fn heartbeat(&mut self, name: &str, started: Timestamp, now: Timestamp) -> (plan: Result<
        Option<HeartbeatPlan>,
        MqttError,
    >)
        requires
            old(self).wf(),
            started.valid(),
            now.valid(),
        ensures
            final(self).wf(),
            match old(self).gateway(name@) {
                None => old(self).unchanged(final(self)) && (plan matches Err(e) && is_not_found(
                    e,
                    name@,
                )),
                Some(gateway) => if gateway.connected {
                    &&& old(self).with_gateway(
                        final(self),
                        name@,
                        GatewayModel {
                            stats: GatewayStats {
                                uptime_seconds: uptime(started, now),
                                ..gateway.stats
                            },
                            ..gateway
                        },
                    )
                    &&& plan matches Ok(Some(p))
                    &&& p.topic@ == heartbeat_topic(
                        gateway.config.topic_prefix@,
                        gateway.config.client_id@,
                    )
                    &&& p.qos == QoS::AtMostOnce
                    &&& !p.retain
                    &&& p.stats == (GatewayStats {
                        uptime_seconds: uptime(started, now),
                        ..gateway.stats
                    })
                } else {
                    old(self).with_gateway(final(self), name@, gateway) && plan matches Ok(None)
                },
            },
    {
        match self.gateways.find(name) {
            None => Err(MqttError::not_found(name)),
            Some(i) => {
                let gateway = self.gateways.get_mut(i);
                let plan = gateway.heartbeat(started, now);
                assert(self.models() =~= old(self).models().update(
                    i as int,
                    self.gateways.values()[i as int]@,
                ));
                Ok(plan)
            },
        }
    }

    /// The counts of the gateway under a name, if there is one.
    pub fn get_gateway_stats(&self, name: &str) -> (stats: Option<GatewayStats>)
        requires
            self.wf(),
        ensures
            stats == match self.gateway(name@) {
                Some(gateway) => Some(gateway.stats),
                None => None,
            },
    {
        match self.gateways.find(name) {
            None => None,
            Some(i) => Some(self.gateways.get(i).get_stats()),
        }
    }

    /// The names of the gateways, in the order in which they were added.
    pub fn list_gateways(&self) -> (names: Vec<String>)
        requires
            self.wf(),
        ensures
            name_views(names@) == self.names(),
    {
        self.gateways.list_names()
    }
}

impl Default for MqttGatewayManager {
    fn default() -> (manager: MqttGatewayManager)
        ensures
            manager.wf(),
            manager.names() == Seq::<Seq<char>>::empty(),
    {
        MqttGatewayManager::new()
    }
}

} // verus!
