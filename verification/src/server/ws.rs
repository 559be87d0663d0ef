//! The protocol of a client connection: what a connection reports of
//! itself, and how a handler reacts to what the client sends. The socket is
//! not part of the library: a handler is told what arrived and answers with
//! what is to be done.

use vstd::hash_map::StringHashMap;
use vstd::prelude::*;

use crate::domain::{SubscriptionEvent, SubscriptionEventView};

verus! {

/// What a connection reports of itself.
#[derive(Debug)]
pub enum WsClientAction {
    Open { conn_id: String },
    Subscribe { conn_id: String, ws_topic: String },
    Unsubscribe { conn_id: String, ws_topic: String },
    Close { conn_id: String },
}

pub enum WsClientActionView {
    Open { conn_id: Seq<char> },
    Subscribe { conn_id: Seq<char>, ws_topic: Seq<char> },
    Unsubscribe { conn_id: Seq<char>, ws_topic: Seq<char> },
    Close { conn_id: Seq<char> },
}

impl View for WsClientAction {
    type V = WsClientActionView;

    open spec fn view(&self) -> WsClientActionView {
        match *self {
            WsClientAction::Open { conn_id } => WsClientActionView::Open { conn_id: conn_id@ },
            WsClientAction::Subscribe { conn_id, ws_topic } => WsClientActionView::Subscribe {
                conn_id: conn_id@,
                ws_topic: ws_topic@,
            },
            WsClientAction::Unsubscribe { conn_id, ws_topic } => WsClientActionView::Unsubscribe {
                conn_id: conn_id@,
                ws_topic: ws_topic@,
            },
            WsClientAction::Close { conn_id } => WsClientActionView::Close { conn_id: conn_id@ },
        }
    }
}

impl WsClientActionView {
    /// The event that is published for the action. The end of a connection
    /// is published as `Open` of that connection, like its beginning.
    pub open spec fn subscription_event(self) -> SubscriptionEventView {
        match self {
            WsClientActionView::Open { conn_id } => SubscriptionEventView::Open { conn_id },
            WsClientActionView::Subscribe { conn_id, ws_topic } => SubscriptionEventView::Subscribe {
                conn_id,
                topic: ws_topic,
            },
            WsClientActionView::Unsubscribe { conn_id, ws_topic } => {
                SubscriptionEventView::Unsubscribe { conn_id, topic: ws_topic }
            },
            WsClientActionView::Close { conn_id } => SubscriptionEventView::Open { conn_id },
        }
    }
}

impl WsClientAction {
    /// The event that is published for the action.
    pub fn to_subscription_event(&self) -> (event: SubscriptionEvent)
        ensures
            event@ == self@.subscription_event(),
    {
        match self {
            WsClientAction::Open { conn_id } => SubscriptionEvent::Open { conn_id: conn_id.clone() },
            WsClientAction::Subscribe { conn_id, ws_topic } => SubscriptionEvent::Subscribe {
                conn_id: conn_id.clone(),
                topic: ws_topic.clone(),
            },
            WsClientAction::Unsubscribe { conn_id, ws_topic } => SubscriptionEvent::Unsubscribe {
                conn_id: conn_id.clone(),
                topic: ws_topic.clone(),
            },
            WsClientAction::Close { conn_id } => SubscriptionEvent::Open { conn_id: conn_id.clone() },
        }
    }
}

/// What a handler asks for in answer to what happened on its connection.
#[derive(Debug)]
pub struct Reaction {
    /// A text to send to the client, before anything else is done. If it
    /// cannot be sent, nothing is reported.
    pub reply: Option<String>,
    /// What to report of the connection.
    pub report: Option<WsClientAction>,
    /// Whether to close the connection in the normal way.
    pub close: bool,
}

pub struct ReactionView {
    pub reply: Option<Seq<char>>,
    pub report: Option<WsClientActionView>,
    pub close: bool,
}

impl View for Reaction {
    type V = ReactionView;

    open spec fn view(&self) -> ReactionView {
        ReactionView {
            reply: crate::domain::text_of(self.reply),
            report: match self.report {
                Some(action) => Some(action@),
                None => None,
            },
            close: self.close,
        }
    }
}

/// The handler of one connection: the id of the connection, and whether
/// there is somebody to report to.
#[derive(Debug)]
pub struct WsHandler {
    pub conn_id: String,
    pub reports: bool,
}

/// What a handler reports of an action: the action, if it reports at all.
pub open spec fn reported(reports: bool, action: WsClientActionView) -> Option<WsClientActionView> {
    if reports {
        Some(action)
    } else {
        None
    }
}

/// The reaction to a text of the client. `sub` is answered with `ping` and
/// reported as a subscription, `unsub` is reported as the end of one, both
/// under the text itself as the topic; `pong` and `close` close the
/// connection; any other text is passed over.
pub open spec fn reaction_to(conn_id: Seq<char>, reports: bool, text: Seq<char>) -> ReactionView {
    if text == "sub"@ {
        ReactionView {
            reply: Some("ping"@),
            report: reported(reports, WsClientActionView::Subscribe { conn_id, ws_topic: text }),
            close: false,
        }
    } else if text == "unsub"@ {
        ReactionView {
            reply: None,
            report: reported(reports, WsClientActionView::Unsubscribe { conn_id, ws_topic: text }),
            close: false,
        }
    } else if text == "pong"@ || text == "close"@ {
        ReactionView { reply: None, report: None, close: true }
    } else {
        ReactionView { reply: None, report: None, close: false }
    }
}

impl WsHandler {
    /// Wraps an action into what is reported.
    fn report(&self, action: WsClientAction) -> (report: Option<WsClientAction>)
        ensures
            (match report {
                Some(a) => Some(a@),
                None => None,
            }) == reported(self.reports, action@),
    {
        if self.reports {
            Some(action)
        } else {
            None
        }
    }

    /// The connection was opened: that is reported.
    pub fn on_open(&self) -> (reaction: Reaction)
        ensures
            reaction@ == (ReactionView {
                reply: None,
                report: reported(self.reports, WsClientActionView::Open { conn_id: self.conn_id@ }),
                close: false,
            }),
    {
        let report = self.report(WsClientAction::Open { conn_id: self.conn_id.clone() });
        Reaction { reply: None, report, close: false }
    }

    /// The client sent a text.
    pub fn on_message(&self, text: &str) -> (reaction: Reaction)
        ensures
            reaction@ == reaction_to(self.conn_id@, self.reports, text@),
    {
        let said = text.to_owned();
        if said == "sub".to_owned() {
            let report = self.report(
                WsClientAction::Subscribe { conn_id: self.conn_id.clone(), ws_topic: said },
            );
            Reaction { reply: Some("ping".to_owned()), report, close: false }
        } else if said == "unsub".to_owned() {
            let report = self.report(
                WsClientAction::Unsubscribe { conn_id: self.conn_id.clone(), ws_topic: said },
            );
            Reaction { reply: None, report, close: false }
        } else if said == "pong".to_owned() || said == "close".to_owned() {
            Reaction { reply: None, report: None, close: true }
        } else {
            Reaction { reply: None, report: None, close: false }
        }
    }

    /// The connection was closed: that is reported.
    pub fn on_close(&self) -> (reaction: Reaction)
        ensures
            reaction@ == (ReactionView {
                reply: None,
                report: reported(self.reports, WsClientActionView::Close { conn_id: self.conn_id@ }),
                close: false,
            }),
    {
        let report = self.report(WsClientAction::Close { conn_id: self.conn_id.clone() });
        Reaction { reply: None, report, close: false }
    }
}

/// One subscription: a connection that listens to a topic.
#[derive(Debug)]
pub struct Subscription {
    pub topic: String,
    pub conn_id: String,
}

impl View for Subscription {
    type V = (Seq<char>, Seq<char>);

    open spec fn view(&self) -> (Seq<char>, Seq<char>) {
        (self.topic@, self.conn_id@)
    }
}

/// Who is connected and who listens to what, as a mathematical value: the
/// ids of the open connections, and the pairs of a topic and a connection
/// that listens to it.
pub struct SubscribersView {
    pub clients: Set<Seq<char>>,
    pub subscriptions: Set<(Seq<char>, Seq<char>)>,
}

impl SubscribersView {
    /// Nobody is connected and nobody listens.
    pub open spec fn empty() -> SubscribersView {
        SubscribersView { clients: Set::empty(), subscriptions: Set::empty() }
    }

    /// The registry after a connection has reported an action. Opening and
    /// closing touch the connections only: what a connection listened to
    /// stays when it closes.
    pub open spec fn after(self, action: WsClientActionView) -> SubscribersView {
        match action {
            WsClientActionView::Open { conn_id } => SubscribersView {
                clients: self.clients.insert(conn_id),
                ..self
            },
            WsClientActionView::Close { conn_id } => SubscribersView {
                clients: self.clients.remove(conn_id),
                ..self
            },
            WsClientActionView::Subscribe { conn_id, ws_topic } => SubscribersView {
                subscriptions: self.subscriptions.insert((ws_topic, conn_id)),
                ..self
            },
            WsClientActionView::Unsubscribe { conn_id, ws_topic } => SubscribersView {
                subscriptions: self.subscriptions.remove((ws_topic, conn_id)),
                ..self
            },
        }
    }
}

/// The pairs of a list of subscriptions, in their order.
pub open spec fn pairs_of(list: Seq<Subscription>) -> Seq<(Seq<char>, Seq<char>)> {
    list.map_values(|s: Subscription| s@)
}

/// The registry of the connected clients and of their subscriptions.
pub struct Subscribers {
    clients: StringHashMap<()>,
    subscriptions: Vec<Subscription>,
}

impl View for Subscribers {
    type V = SubscribersView;

    closed spec fn view(&self) -> SubscribersView {
        SubscribersView {
            clients: self.clients@.dom(),
            subscriptions: pairs_of(self.subscriptions@).to_set(),
        }
    }
}

impl Subscribers {
    /// No subscription is kept twice.
    #[verifier::type_invariant]
    spec fn well_formed(self) -> bool {
        pairs_of(self.subscriptions@).no_duplicates()
    }

    /// A registry in which nobody is connected and nobody listens.
    pub fn new() -> (created: Self)
        ensures
            created@ == SubscribersView::empty(),
    {
        let clients: StringHashMap<()> = StringHashMap::new();
        let subscriptions: Vec<Subscription> = Vec::new();
        assert(clients@.dom() =~= Set::empty());
        assert(pairs_of(subscriptions@).to_set() =~= Set::empty());
        Subscribers { clients, subscriptions }
    }

    /// Where in the list the subscription of `conn_id` to `topic` stands.
    fn position(&self, topic: &String, conn_id: &String) -> (at: Option<usize>)
        ensures
            match at {
                Some(i) => i < self.subscriptions@.len() && pairs_of(self.subscriptions@)[i as int]
                    == (topic@, conn_id@),
                None => !pairs_of(self.subscriptions@).contains((topic@, conn_id@)),
            },
    {
        let mut i: usize = 0;
        while i < self.subscriptions.len()
            invariant
                i <= self.subscriptions@.len(),
                forall|k: int| 0 <= k < i ==> pairs_of(self.subscriptions@)[k] != (topic@, conn_id@),
            decreases self.subscriptions@.len() - i,
        {
            let entry = &self.subscriptions[i];
            if entry.topic == *topic && entry.conn_id == *conn_id {
                return Some(i);
            }
            i = i + 1;
        }
        None
    }

    /// Whether a connection is open.
    pub fn is_connected(&self, conn_id: &str) -> (connected: bool)
        ensures
            connected == self@.clients.contains(conn_id@),
    {
        self.clients.contains_key(conn_id)
    }

    /// Whether a connection listens to a topic.
    pub fn is_subscribed(&self, topic: &str, conn_id: &str) -> (subscribed: bool)
        ensures
            subscribed == self@.subscriptions.contains((topic@, conn_id@)),
    {
        self.position(&topic.to_owned(), &conn_id.to_owned()).is_some()
    }

    /// Takes note of what a connection reported.
    pub fn record(&mut self, action: &WsClientAction)
        ensures
            final(self)@ == old(self)@.after(action@),
    {
        proof {
            use_type_invariant(&*self);
        }
        match action {
            WsClientAction::Open { conn_id } => {
                let mut clients: StringHashMap<()> = StringHashMap::new();
                std::mem::swap(&mut self.clients, &mut clients);
                clients.insert(conn_id.clone(), ());
                self.clients = clients;
                assert(self@.clients =~= old(self)@.clients.insert(conn_id@));
            },
            WsClientAction::Close { conn_id } => {
                let mut clients: StringHashMap<()> = StringHashMap::new();
                std::mem::swap(&mut self.clients, &mut clients);
                clients.remove(conn_id.as_str());
                self.clients = clients;
                assert(self@.clients =~= old(self)@.clients.remove(conn_id@));
            },
            WsClientAction::Subscribe { conn_id, ws_topic } => {
                let ghost before = pairs_of(self.subscriptions@);
                let ghost pair = (ws_topic@, conn_id@);
                if self.position(ws_topic, conn_id).is_none() {
                    let mut list: Vec<Subscription> = Vec::new();
                    std::mem::swap(&mut self.subscriptions, &mut list);
                    list.push(Subscription { topic: ws_topic.clone(), conn_id: conn_id.clone() });
                    proof {
                        let now = pairs_of(list@);
                        assert(now =~= before.push(pair));
                        assert forall|p: (Seq<char>, Seq<char>)|
                            now.contains(p) <==> before.contains(p) || p == pair by {
                            if before.contains(p) {
                                let i = choose|i: int| 0 <= i < before.len() && before[i] == p;
                                assert(now[i] == p);
                            }
                            if p == pair {
                                assert(now[before.len() as int] == p);
                            }
                        }
                        assert(now.to_set() =~= before.to_set().insert(pair));
                    }
                    self.subscriptions = list;
                } else {
                    assert(before.to_set() =~= before.to_set().insert(pair));
                }
            },
            WsClientAction::Unsubscribe { conn_id, ws_topic } => {
                let ghost before = pairs_of(self.subscriptions@);
                let ghost pair = (ws_topic@, conn_id@);
                match self.position(ws_topic, conn_id) {
                    Some(at) => {
                        let mut list: Vec<Subscription> = Vec::new();
                        std::mem::swap(&mut self.subscriptions, &mut list);
                        list.remove(at);
                        proof {
                            let now = pairs_of(list@);
                            assert(now =~= before.remove(at as int));
                            assert forall|p: (Seq<char>, Seq<char>)|
                                now.contains(p) <==> before.contains(p) && p != pair by {
                                if now.contains(p) {
                                    let i = choose|i: int| 0 <= i < now.len() && now[i] == p;
                                    if i < at {
                                        assert(before[i] == p);
                                    } else {
                                        assert(before[i + 1] == p);
                                    }
                                }
                                if before.contains(p) && p != pair {
                                    let i = choose|i: int| 0 <= i < before.len() && before[i] == p;
                                    if i < at {
                                        assert(now[i] == p);
                                    } else {
                                        assert(now[i - 1] == p);
                                    }
                                }
                            }
                            assert(now.to_set() =~= before.to_set().remove(pair));
                        }
                        self.subscriptions = list;
                    },
                    None => {
                        assert(before.to_set() =~= before.to_set().remove(pair));
                    },
                }
            },
        }
    }
}

} // verus!
