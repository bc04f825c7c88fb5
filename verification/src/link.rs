//! The network side of the device: when to connect, subscribe and publish.

use crate::mqtt;
use crate::mqtt::ConnectionState;
use vstd::prelude::*;

verus! {

/// Watches whether the device is on the network, that is both associated and given an address.
#[derive(Debug, Clone, Copy, PartialEq, Eq, Structural)]
pub struct WifiWatch {
    pub was_connected: bool,
}

/// What a look at the network calls for.
#[derive(Debug, Clone, Copy, PartialEq, Eq, Structural)]
pub struct WifiNews {
    pub event: Option<ConnectionState>,
    pub reconnect: bool,
}

impl WifiWatch {
    /// The watch after a look at the network, and what the look calls for.
    pub open spec fn looked(self, associated: bool, has_ip: bool) -> (Self, WifiNews) {
        let connected = associated && has_ip;
        let event = if connected == self.was_connected {
            None
        } else if connected {
            Some(ConnectionState::WifiConnected)
        } else {
            Some(ConnectionState::WifiDisconnected)
        };
        (
            WifiWatch { was_connected: connected },
            WifiNews { event, reconnect: self.was_connected && !associated },
        )
    }

    pub fn new() -> (r: Self)
        ensures
            !r.was_connected,
    {
        WifiWatch { was_connected: false }
    }

    /// Takes a look at the network. There is an event exactly when the device came on the network
    /// or fell off it, and a new attempt to connect exactly when it fell off by losing the access
    /// point.
    pub fn observe(&mut self, associated: bool, has_ip: bool) -> (news: WifiNews)
        ensures
            final(self).was_connected == (associated && has_ip),
            news.event == (if final(self).was_connected == old(self).was_connected {
                None
            } else if final(self).was_connected {
                Some(ConnectionState::WifiConnected)
            } else {
                Some(ConnectionState::WifiDisconnected)
            }),
            news.reconnect == (old(self).was_connected && !associated),
            (*final(self), news) == old(self).looked(associated, has_ip),
    {
        let connected = associated && has_ip;
        if connected && !self.was_connected {
            self.was_connected = true;
            WifiNews { event: Some(ConnectionState::WifiConnected), reconnect: false }
        } else if !connected && self.was_connected {
            self.was_connected = false;
            WifiNews { event: Some(ConnectionState::WifiDisconnected), reconnect: !associated }
        } else {
            WifiNews { event: None, reconnect: false }
        }
    }
}

/// The state of the connection to the broker.
#[derive(Debug, Clone, Copy, PartialEq, Eq, Structural)]
pub struct Link {
    pub has_client: bool,
    pub is_mqtt_connected: bool,
}

#[derive(Debug, Clone, Copy, PartialEq, Eq, Structural)]
pub enum LinkAction {
    Nothing,
    CreateClient,
    Subscribe,
}

/// A topic to subscribe to.
#[derive(Debug, Clone)]
pub struct Subscription {
    pub topic: String,
    pub at_least_once: bool,
}

impl Link {
    /// The link after an event, and what the event calls for.
    pub open spec fn heard(self, event: ConnectionState) -> (Self, LinkAction) {
        (
            Link {
                has_client: self.has_client,
                is_mqtt_connected: match event {
                    ConnectionState::WifiConnected => self.is_mqtt_connected,
                    ConnectionState::WifiDisconnected => false,
                    ConnectionState::MqttConnected => true,
                    ConnectionState::MqttDisconnected => false,
                },
            },
            match event {
                ConnectionState::WifiConnected if !self.has_client => LinkAction::CreateClient,
                ConnectionState::MqttConnected if self.has_client => LinkAction::Subscribe,
                _ => LinkAction::Nothing,
            },
        )
    }

    /// A report can be published.
    pub open spec fn may_publish(self) -> bool {
        self.is_mqtt_connected && self.has_client
    }

    pub fn new() -> (r: Self)
        ensures
            !r.has_client,
            !r.is_mqtt_connected,
    {
        Link { has_client: false, is_mqtt_connected: false }
    }

    /// What to do on an event. A client is created once, on the first network; it subscribes each
    /// time it gets through to the broker.
    pub fn on_event(&mut self, event: ConnectionState) -> (action: LinkAction)
        ensures
            final(self).has_client == old(self).has_client,
            final(self).is_mqtt_connected == (match event {
                ConnectionState::WifiConnected => old(self).is_mqtt_connected,
                ConnectionState::WifiDisconnected => false,
                ConnectionState::MqttConnected => true,
                ConnectionState::MqttDisconnected => false,
            }),
            action == (if event == ConnectionState::WifiConnected && !old(self).has_client {
                LinkAction::CreateClient
            } else if event == ConnectionState::MqttConnected && old(self).has_client {
                LinkAction::Subscribe
            } else {
                LinkAction::Nothing
            }),
            (*final(self), action) == old(self).heard(event),
    {
        match event {
            ConnectionState::WifiConnected => {
                if self.has_client {
                    LinkAction::Nothing
                } else {
                    LinkAction::CreateClient
                }
            },
            ConnectionState::WifiDisconnected => {
                self.is_mqtt_connected = false;
                LinkAction::Nothing
            },
            ConnectionState::MqttConnected => {
                self.is_mqtt_connected = true;
                if self.has_client {
                    LinkAction::Subscribe
                } else {
                    LinkAction::Nothing
                }
            },
            ConnectionState::MqttDisconnected => {
                self.is_mqtt_connected = false;
                LinkAction::Nothing
            },
        }
    }

    /// Notes that the client asked for was created.
    pub fn client_created(&mut self)
        ensures
            final(self).has_client,
            final(self).is_mqtt_connected == old(self).is_mqtt_connected,
    {
        self.has_client = true;
    }

    /// Where to publish a report of the control loop; it is dropped while the broker is out of
    /// reach.
    pub fn publish_topic(&self, device_id: &str) -> (topic: Option<String>)
        ensures
            topic is Some <==> self.is_mqtt_connected && self.has_client,
            topic is Some <==> self.may_publish(),
            topic is Some ==> topic->0@ == mqtt::device_topic(device_id@, "/fsm"@),
    {
        if self.is_mqtt_connected && self.has_client {
            Some(mqtt::fsm_topic(device_id))
        } else {
            None
        }
    }
}

/// What a device subscribes to: its settings and commands, to be delivered at least once, and the
/// readings of all sensors, at most once.
pub fn subscriptions(device_id: &str) -> (list: Vec<Subscription>)
    ensures
        list@.len() == 3,
        list@[0].topic@ == mqtt::device_topic(device_id@, "/config"@),
        list@[0].at_least_once,
        list@[1].topic@ == mqtt::device_topic(device_id@, "/command"@),
        list@[1].at_least_once,
        list@[2].topic@ == "AGITECH/sensor/+/data"@,
        !list@[2].at_least_once,
{
    let mut list: Vec<Subscription> = Vec::new();
    list.push(Subscription { topic: mqtt::config_topic(device_id), at_least_once: true });
    list.push(Subscription { topic: mqtt::command_topic(device_id), at_least_once: true });
    list.push(Subscription { topic: mqtt::sensors_topic(), at_least_once: false });
    list
}

/// The device is on the network where it is associated and has an address. There is news exactly
/// when that changes, so not twice of the same look, and a new attempt to connect exactly when the
/// device was on the network and is no longer associated.
pub proof fn law_network_news(watch: WifiWatch, associated: bool, has_ip: bool)
    ensures
        ({
            let (after, news) = watch.looked(associated, has_ip);
            let (again, more) = after.looked(associated, has_ip);
            &&& after.was_connected <==> associated && has_ip
            &&& news.event == Some(ConnectionState::WifiConnected) <==> !watch.was_connected
                && associated && has_ip
            &&& news.event == Some(ConnectionState::WifiDisconnected) <==> watch.was_connected && (
            !associated || !has_ip)
            &&& news.event is Some ==> news.event == Some(ConnectionState::WifiConnected)
                || news.event == Some(ConnectionState::WifiDisconnected)
            &&& news.reconnect <==> watch.was_connected && !associated
            &&& again == after
            &&& more.event is None
            &&& !more.reconnect
        }),
{
}

/// Reports go out only between the broker's being reached and the loss of the broker or the
/// network; a client is asked for on a network while there is none, and subscribes each time that
/// it reaches the broker.
pub proof fn law_link_follows_events(link: Link, event: ConnectionState)
    ensures
        ({
            let (after, action) = link.heard(event);
            &&& after.has_client == link.has_client
            &&& event == ConnectionState::MqttConnected ==> after.may_publish() == link.has_client
            &&& event == ConnectionState::MqttDisconnected || event
                == ConnectionState::WifiDisconnected ==> !after.may_publish()
                && !after.is_mqtt_connected
            &&& event == ConnectionState::WifiConnected ==> after == link
            &&& action == LinkAction::CreateClient <==> event == ConnectionState::WifiConnected
                && !link.has_client
            &&& action == LinkAction::Subscribe <==> event == ConnectionState::MqttConnected
                && link.has_client
        }),
{
}

} // verus!
