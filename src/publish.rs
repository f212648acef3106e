use crate::entry::Entry;
use crate::topic::{payload_of, spec_payload, spec_topic, topic_of};
use vstd::prelude::*;

verus! {

/// The delivery guarantee asked of the broker for a message.
#[derive(PartialEq, Eq, Structural, Clone, Copy, Debug)]
pub enum QualityOfService {
    AtMostOnce,
    AtLeastOnce,
    ExactlyOnce,
}

/// One message to hand to the broker.
pub struct Message {
    pub topic: String,
    pub payload: String,
    pub qos: QualityOfService,
    /// Whether the broker keeps the message for later subscribers.
    pub retain: bool,
}

pub struct MessageView {
    pub topic: Seq<char>,
    pub payload: Seq<char>,
    pub qos: QualityOfService,
    pub retain: bool,
}

impl View for Message {
    type V = MessageView;

    open spec fn view(&self) -> MessageView {
        MessageView {
            topic: self.topic@,
            payload: self.payload@,
            qos: self.qos,
            retain: self.retain,
        }
    }
}

/// The message an entry gives: its topic and payload, retained and delivered
/// at least once. An entry with no payload, or whose topic would be empty,
/// gives none.
pub open spec fn spec_message(e: Entry) -> Option<MessageView> {
    match spec_payload(e.value) {
        Some(payload) => if spec_topic(e.name@).len() > 0 {
            Some(
                MessageView {
                    topic: spec_topic(e.name@),
                    payload,
                    qos: QualityOfService::AtLeastOnce,
                    retain: true,
                },
            )
        } else {
            None
        },
        None => None,
    }
}

/// The messages of a snapshot of entries, in the snapshot's order.
pub open spec fn spec_plan(entries: Seq<Entry>) -> Seq<MessageView>
    decreases entries.len(),
{
    if entries.len() == 0 {
        Seq::empty()
    } else {
        match spec_message(entries.last()) {
            Some(m) => spec_plan(entries.drop_last()).push(m),
            None => spec_plan(entries.drop_last()),
        }
    }
}

pub open spec fn message_views(s: Seq<Message>) -> Seq<MessageView> {
    s.map_values(|m: Message| m@)
}

/// The message for one entry, if it is to be published.
pub fn message_for(entry: &Entry) -> (r: Option<Message>)
    ensures
        r is Some == spec_message(*entry) is Some,
        r is Some ==> r.unwrap()@ == spec_message(*entry).unwrap(),
{
    match payload_of(&entry.value) {
        Some(payload) => {
            let topic = topic_of(entry.name.as_str());
            if topic.unicode_len() > 0 {
                Some(Message { topic, payload, qos: QualityOfService::AtLeastOnce, retain: true })
            } else {
                None
            }
        },
        None => None,
    }
}

/// The messages that one tick publishes for a snapshot of entries.
pub fn plan_publishes(entries: &Vec<Entry>) -> (r: Vec<Message>)
    ensures
        message_views(r@) == spec_plan(entries@),
{
    let mut out: Vec<Message> = Vec::new();
    let mut i: usize = 0;
    while i < entries.len()
        invariant
            i <= entries@.len(),
            message_views(out@) == spec_plan(entries@.take(i as int)),
        decreases entries@.len() - i,
    {
        let entry = &entries[i];
        assert(entries@.take(i + 1).drop_last() == entries@.take(i as int));
        assert(entries@.take(i + 1).last() == *entry);
        match message_for(entry) {
            Some(m) => {
                let ghost before = out@;
                out.push(m);
                assert(message_views(out@) =~= message_views(before).push(m@));
            },
            None => {},
        }
        i = i + 1;
    }
    assert(entries@.take(entries@.len() as int) == entries@);
    out
}

/// The messages of a round that the broker took: message `i` counts where the
/// `i`-th publish call succeeded.
pub open spec fn spec_delivered(messages: Seq<MessageView>, outcomes: Seq<bool>) -> Seq<
    MessageView,
>
    decreases outcomes.len(),
{
    if outcomes.len() == 0 {
        Seq::empty()
    } else {
        let rest = spec_delivered(messages, outcomes.drop_last());
        if outcomes.last() {
            rest.push(messages[outcomes.len() - 1])
        } else {
            rest
        }
    }
}

pub struct RoundView {
    pub messages: Seq<MessageView>,
    /// One outcome per publish call made so far, in the order of the messages.
    pub outcomes: Seq<bool>,
}

/// The publishing half of a tick: every planned message is offered to the
/// broker once, in order, whatever became of the ones before it.
pub struct PublishRound {
    messages: Vec<Message>,
    outcomes: Vec<bool>,
}

impl View for PublishRound {
    type V = RoundView;

    closed spec fn view(&self) -> RoundView {
        RoundView { messages: message_views(self.messages@), outcomes: self.outcomes@ }
    }
}

pub open spec fn round_wf(v: RoundView) -> bool {
    v.outcomes.len() <= v.messages.len()
}

impl PublishRound {
    pub fn new(messages: Vec<Message>) -> (r: PublishRound)
        ensures
            r@.messages == message_views(messages@),
            r@.outcomes == Seq::<bool>::empty(),
            round_wf(r@),
    {
        PublishRound { messages, outcomes: Vec::new() }
    }

    /// The message to publish next, or none once every message was offered.
    pub fn next_message(&self) -> (r: Option<&Message>)
        requires
            round_wf(self@),
        ensures
            r is None <==> self@.outcomes.len() == self@.messages.len(),
            r is Some ==> r.unwrap()@ == self@.messages[self@.outcomes.len() as int],
    {
        proof {
            assert(self.messages@.len() == self@.messages.len());
        }
        let i = self.outcomes.len();
        if i < self.messages.len() {
            Some(&self.messages[i])
        } else {
            None
        }
    }

    pub fn is_finished(&self) -> (r: bool)
        requires
            round_wf(self@),
        ensures
            r == (self@.outcomes.len() == self@.messages.len()),
    {
        self.outcomes.len() == self.messages.len()
    }

    /// Records how the publish call for the current message went, and moves on
    /// to the next message either way.
    pub fn record(&mut self, delivered: bool)
        requires
            round_wf(old(self)@),
            old(self)@.outcomes.len() < old(self)@.messages.len(),
        ensures
            final(self)@.messages == old(self)@.messages,
            final(self)@.outcomes == old(self)@.outcomes.push(delivered),
            round_wf(final(self)@),
    {
        self.outcomes.push(delivered);
    }

    /// How many messages of the round the broker took so far.
    pub fn delivered_count(&self) -> (r: usize)
        requires
            round_wf(self@),
        ensures
            r == spec_delivered(self@.messages, self@.outcomes).len(),
    {
        let mut count: usize = 0;
        let mut i: usize = 0;
        while i < self.outcomes.len()
            invariant
                round_wf(self@),
                i <= self@.outcomes.len(),
                count == spec_delivered(self@.messages, self@.outcomes.take(i as int)).len(),
                count <= i,
            decreases self@.outcomes.len() - i,
        {
            assert(self@.outcomes.take(i + 1).drop_last() == self@.outcomes.take(i as int));
            if self.outcomes[i] {
                count = count + 1;
            }
            i = i + 1;
        }
        assert(self@.outcomes.take(i as int) == self@.outcomes);
        count
    }
}

proof fn lemma_delivered_one_failure_prefix(
    messages: Seq<MessageView>,
    outcomes: Seq<bool>,
    failed: int,
    j: int,
)
    requires
        outcomes.len() == messages.len(),
        0 <= failed < messages.len(),
        !outcomes[failed],
        forall|i: int| 0 <= i < outcomes.len() && i != failed ==> outcomes[i],
        0 <= j <= outcomes.len(),
    ensures
        spec_delivered(messages, outcomes.take(j)) == if j <= failed {
            messages.take(j)
        } else {
            messages.take(j).remove(failed)
        },
    decreases j,
{
    if j > 0 {
        lemma_delivered_one_failure_prefix(messages, outcomes, failed, j - 1);
        assert(outcomes.take(j).drop_last() == outcomes.take(j - 1));
        assert(outcomes.take(j).last() == outcomes[j - 1]);
        if j <= failed {
            assert(messages.take(j) =~= messages.take(j - 1).push(messages[j - 1]));
        } else if j - 1 == failed {
            assert(messages.take(j).remove(failed) =~= messages.take(j - 1));
        } else {
            assert(messages.take(j).remove(failed) =~= messages.take(j - 1).remove(failed).push(
                messages[j - 1],
            ));
        }
    } else {
        assert(outcomes.take(0) =~= Seq::<bool>::empty());
        assert(messages.take(0) =~= Seq::<MessageView>::empty());
    }
}

/// In a round of N messages where only the publish of message `failed` fails,
/// the other N - 1 messages are all delivered, in order.
pub proof fn lemma_one_failure_spares_the_rest(
    messages: Seq<MessageView>,
    outcomes: Seq<bool>,
    failed: int,
)
    requires
        outcomes.len() == messages.len(),
        0 <= failed < messages.len(),
        !outcomes[failed],
        forall|i: int| 0 <= i < outcomes.len() && i != failed ==> outcomes[i],
    ensures
        spec_delivered(messages, outcomes) == messages.remove(failed),
        spec_delivered(messages, outcomes).len() == messages.len() - 1,
{
    lemma_delivered_one_failure_prefix(messages, outcomes, failed, outcomes.len() as int);
    assert(outcomes.take(outcomes.len() as int) == outcomes);
    assert(messages.take(messages.len() as int) == messages);
}

} // verus!
