//! A status bar: message stacks per context over a wrapped native object.
//!
//! The status bar keeps one global stack of messages, each tagged with a
//! context identifier obtained from a context description, and a per-widget
//! signal registry. Pushing a message records a `text-pushed` emission;
//! popping removes the most recent message of one context and records a
//! `text-popped` emission reporting the message now topmost on the whole
//! stack, or an empty one when nothing remains. Emissions are queued
//! and drained by the caller, who dispatches them in the hub's delivery
//! order. The widget itself is built from a property bag validated against
//! its class schema, and owns one handle on the underlying native object.

use vstd::prelude::*;
use vstd::string::StringExecFns;
use crate::handle::ObjectHeap;
use crate::handle::SafeHandle;
use crate::handle::TypeRegistry;
use crate::handle::allocate_spec;
use crate::props::BuildError;
use crate::props::PropValue;
use crate::props::PropertySet;
use crate::props::Schema;
use crate::props::is_set;
use crate::signal::SignalHub;
use crate::signal::connect_spec;
use crate::signal::deliveries;
use crate::signal::disconnect_spec;

verus! {

/// One stacked message.
pub struct Message {
    pub message_id: u32,
    pub context_id: u32,
    pub text: String,
}

/// The mathematical image of one message.
pub ghost struct MessageSpec {
    pub message_id: u32,
    pub context_id: u32,
    pub text: Seq<char>,
}

impl View for Message {
    type V = MessageSpec;

    open spec fn view(&self) -> MessageSpec {
        MessageSpec {
            message_id: self.message_id,
            context_id: self.context_id,
            text: self.text@,
        }
    }
}

/// One queued signal emission.
pub struct Emission {
    pub signal: String,
    pub context_id: u32,
    pub text: String,
}

/// The mathematical image of one emission.
pub ghost struct EmissionSpec {
    pub signal: Seq<char>,
    pub context_id: u32,
    pub text: Seq<char>,
}

impl View for Emission {
    type V = EmissionSpec;

    open spec fn view(&self) -> EmissionSpec {
        EmissionSpec { signal: self.signal@, context_id: self.context_id, text: self.text@ }
    }
}

/// The stack without the messages that carry both `ctx` and `mid`.
pub open spec fn drop_matching(msgs: Seq<MessageSpec>, ctx: u32, mid: u32) -> Seq<MessageSpec>
    decreases msgs.len(),
{
    if msgs.len() == 0 {
        Seq::empty()
    } else {
        let head = drop_matching(msgs.drop_last(), ctx, mid);
        if msgs.last().context_id == ctx && msgs.last().message_id == mid {
            head
        } else {
            head.push(msgs.last())
        }
    }
}

/// The stack without the messages of context `ctx`.
pub open spec fn drop_context(msgs: Seq<MessageSpec>, ctx: u32) -> Seq<MessageSpec>
    decreases msgs.len(),
{
    if msgs.len() == 0 {
        Seq::empty()
    } else {
        let head = drop_context(msgs.drop_last(), ctx);
        if msgs.last().context_id == ctx {
            head
        } else {
            head.push(msgs.last())
        }
    }
}

/// The `text-popped` emission recorded after a pop: it reports the message
/// now topmost on the whole stack, or context zero and empty text when the
/// stack is empty.
pub open spec fn popped_emission(rem: Seq<MessageSpec>) -> EmissionSpec {
    if rem.len() == 0 {
        EmissionSpec { signal: "text-popped"@, context_id: 0, text: Seq::empty() }
    } else {
        EmissionSpec {
            signal: "text-popped"@,
            context_id: rem.last().context_id,
            text: rem.last().text,
        }
    }
}

/// A status bar widget: one owned handle, the property set its
/// construction applied, the context table, the message stack, the signal
/// registry and the queue of emissions not yet dispatched.
pub struct Statusbar {
    pub handle: SafeHandle,
    pub properties: PropertySet,
    pub contexts: Vec<String>,
    pub messages: Vec<Message>,
    pub next_message_id: u32,
    pub signals: SignalHub,
    pub pending: Vec<Emission>,
}

impl Statusbar {
    /// The context descriptions, in the order their identifiers were
    /// handed out.
    pub open spec fn ctxs(self) -> Seq<Seq<char>> {
        self.contexts@.map(|i: int, c: String| c@)
    }

    /// The message stack, oldest first.
    pub open spec fn msgs(self) -> Seq<MessageSpec> {
        self.messages@.map(|i: int, m: Message| m@)
    }

    /// The queued emissions, oldest first.
    pub open spec fn pend(self) -> Seq<EmissionSpec> {
        self.pending@.map(|i: int, e: Emission| e@)
    }

    pub open spec fn wf(self) -> bool {
        self.signals.wf()
    }

    /// A fresh status bar without properties: allocates its native object
    /// with one owned reference and starts with nothing stacked, no
    /// contexts, no connections and nothing queued.
    pub fn new(heap: &mut ObjectHeap, reg: &TypeRegistry, class: usize) -> (sb: Statusbar)
        requires
            reg.wf(),
            reg.is_type(class as int),
            old(heap).slots@.len() < usize::MAX,
        ensures
            final(heap).slots@ == allocate_spec(old(heap).slots@, class),
            sb.handle == (SafeHandle { object: old(heap).slots@.len() as usize, capability: class,
            }),
            sb.handle.wf(*final(heap), *reg),
            sb.properties.entries@.len() == 0,
            sb.ctxs().len() == 0,
            sb.msgs().len() == 0,
            sb.pend().len() == 0,
            sb.next_message_id == 1,
            sb.signals.conns().len() == 0,
            sb.wf(),
    {
        let object = heap.allocate(class);
        let handle = SafeHandle::from_owned(heap, reg, object, class);
        let sb = Statusbar {
            handle,
            properties: PropertySet::new(),
            contexts: Vec::new(),
            messages: Vec::new(),
            next_message_id: 1,
            signals: SignalHub::new(),
            pending: Vec::new(),
        };
        proof {
            assert(sb.ctxs() =~= Seq::<Seq<char>>::empty());
            assert(sb.msgs() =~= Seq::<MessageSpec>::empty());
            assert(sb.pend() =~= Seq::<EmissionSpec>::empty());
        }
        sb
    }

    /// A builder for a status bar, starting from an empty property bag.
    pub fn builder() -> (b: StatusbarBuilder)
        ensures
            b.props.entries@.len() == 0,
            b.props.wf(),
    {
        StatusbarBuilder { props: PropertySet::new() }
    }

    /// The identifier of the context described by `context_description`:
    /// the one already handed out for that description, or a fresh one.
    /// Identifiers start at one.
    pub fn context_id(&mut self, context_description: &str) -> (id: u32)
        requires
            old(self).contexts@.len() < u32::MAX,
        ensures
            final(self).messages == old(self).messages,
            final(self).signals == old(self).signals,
            final(self).pending == old(self).pending,
            final(self).next_message_id == old(self).next_message_id,
            final(self).handle == old(self).handle,
            final(self).properties == old(self).properties,
            ({
                let cs = old(self).ctxs();
                if exists|j: int| 0 <= j < cs.len() && cs[j] == context_description@ {
                    &&& *final(self) == *old(self)
                    &&& exists|j: int|
                        #![auto]
                        0 <= j < cs.len() && cs[j] == context_description@ && (forall|i2: int|
                            0 <= i2 < j ==> cs[i2] != context_description@) && id == j + 1
                } else {
                    &&& final(self).ctxs() == cs.push(context_description@)
                    &&& id == cs.len() + 1
                }
            }),
    {
        let n = self.contexts.len();
        let mut k: usize = 0;
        while k < n
            invariant
                self == old(self),
                n == self.contexts@.len(),
                n < u32::MAX,
                k <= n,
                forall|j: int| 0 <= j < k ==> old(self).ctxs()[j] != context_description@,
            decreases n - k,
        {
            if crate::text::str_eq(self.contexts[k].as_str(), context_description) {
                proof {
                    let cs = old(self).ctxs();
                    let kk = k as int;
                    assert(cs[kk] == old(self).contexts@[kk]@);
                    assert(cs[kk] == context_description@);
                    assert(k + 1 <= old(self).contexts@.len());
                    assert((k + 1) as u32 == kk + 1);
                    assert(0 <= kk < cs.len() && cs[kk] == context_description@ && (forall|i2: int|
                        0 <= i2 < kk ==> cs[i2] != context_description@) && (k + 1) as u32 == kk
                        + 1);
                    assert(exists|j: int|
                        #![auto]
                        0 <= j < cs.len() && cs[j] == context_description@ && (forall|i2: int|
                            0 <= i2 < j ==> cs[i2] != context_description@) && (k + 1) as u32 == j
                            + 1);
                }
                return (k + 1) as u32;
            }
            k = k + 1;
        }
        let owned = String::from_str(context_description);
        self.contexts.push(owned);
        proof {
            assert(self.ctxs() =~= old(self).ctxs().push(context_description@));
        }
        (n + 1) as u32
    }

    /// Stacks `text` under context `context_id`, queues one `text-pushed`
    /// emission carrying it, and returns the message's fresh identifier.
    pub fn push(&mut self, context_id: u32, text: &str) -> (message_id: u32)
        requires
            old(self).wf(),
            old(self).next_message_id < u32::MAX,
        ensures
            message_id == old(self).next_message_id,
            final(self).msgs() == old(self).msgs().push(
                MessageSpec { message_id, context_id, text: text@ },
            ),
            final(self).pend() == old(self).pend().push(
                EmissionSpec { signal: "text-pushed"@, context_id, text: text@ },
            ),
            final(self).next_message_id == old(self).next_message_id + 1,
            final(self).contexts == old(self).contexts,
            final(self).signals == old(self).signals,
            final(self).handle == old(self).handle,
            final(self).properties == old(self).properties,
            final(self).wf(),
    {
        let message_id = self.next_message_id;
        self.next_message_id = self.next_message_id + 1;
        let owned = String::from_str(text);
        self.messages.push(Message { message_id, context_id, text: owned });
        let etext = String::from_str(text);
        let esignal = String::from_str("text-pushed");
        self.pending.push(Emission { signal: esignal, context_id, text: etext });
        proof {
            assert(self.msgs() =~= old(self).msgs().push(
                MessageSpec { message_id, context_id, text: text@ },
            ));
            assert(self.pend() =~= old(self).pend().push(
                EmissionSpec { signal: "text-pushed"@, context_id, text: text@ },
            ));
        }
        message_id
    }

    /// Removes the most recent message of context `context_id`, if any,
    /// then queues one `text-popped` emission reporting the message now
    /// topmost on the whole stack: its context and text, or context zero
    /// and empty text when nothing remains. The emission is queued whether
    /// or not something was removed.
    pub fn pop(&mut self, context_id: u32)
        requires
            old(self).wf(),
        ensures
            final(self).contexts == old(self).contexts,
            final(self).signals == old(self).signals,
            final(self).next_message_id == old(self).next_message_id,
            final(self).handle == old(self).handle,
            final(self).properties == old(self).properties,
            final(self).wf(),
            ({
                let msgs = old(self).msgs();
                if exists|j: int| 0 <= j < msgs.len() && msgs[j].context_id == context_id {
                    exists|j: int|
                        #![auto]
                        0 <= j < msgs.len() && msgs[j].context_id == context_id && (forall|j2: int|
                            j < j2 < msgs.len() ==> msgs[j2].context_id != context_id)
                            && final(self).msgs() == msgs.remove(j)
                            && final(self).pend() == old(self).pend().push(
                            popped_emission(msgs.remove(j)),
                        )
                } else {
                    &&& final(self).messages == old(self).messages
                    &&& final(self).pend() == old(self).pend().push(popped_emission(msgs))
                }
            }),
    {
        let n = self.messages.len();
        let mut i: usize = n;
        while i > 0
            invariant
                old(self).wf(),
                self == old(self),
                n == self.messages@.len(),
                i <= n,
                forall|j: int| i <= j < n ==> old(self).msgs()[j].context_id != context_id,
            decreases i,
        {
            if self.messages[i - 1].context_id == context_id {
                proof {
                    let msgs = old(self).msgs();
                    let jj = i - 1 as int;
                    assert(msgs[jj] == old(self).messages@[jj]@);
                    assert(msgs[jj].context_id == context_id);
                }
                self.messages.remove(i - 1);
                proof {
                    assert(self.msgs() =~= old(self).msgs().remove(i - 1));
                }
                self.queue_text_popped();
                proof {
                    let msgs = old(self).msgs();
                    let jj = i - 1 as int;
                    assert(0 <= jj < msgs.len() && msgs[jj].context_id == context_id && (forall|
                        j2: int,
                    |
                        jj < j2 < msgs.len() ==> msgs[j2].context_id != context_id) && self.msgs()
                        == msgs.remove(jj) && self.pend() == old(self).pend().push(
                        popped_emission(msgs.remove(jj)),
                    ));
                }
                return ;
            }
            i = i - 1;
        }
        self.queue_text_popped();
    }

    /// Queues one `text-popped` emission reporting the message currently
    /// topmost on the whole stack.
    fn queue_text_popped(&mut self)
        ensures
            final(self).pend() == old(self).pend().push(popped_emission(old(self).msgs())),
            final(self).messages == old(self).messages,
            final(self).contexts == old(self).contexts,
            final(self).signals == old(self).signals,
            final(self).next_message_id == old(self).next_message_id,
            final(self).handle == old(self).handle,
            final(self).properties == old(self).properties,
    {
        let n = self.messages.len();
        let emission = if n == 0 {
            Emission {
                signal: String::from_str("text-popped"),
                context_id: 0,
                text: String::new(),
            }
        } else {
            let top = &self.messages[n - 1];
            Emission {
                signal: String::from_str("text-popped"),
                context_id: top.context_id,
                text: top.text.clone(),
            }
        };
        self.pending.push(emission);
        proof {
            if n > 0 {
                assert(old(self).msgs().last() == old(self).messages@[n - 1 as int]@);
            }
            assert(self.pend() =~= old(self).pend().push(popped_emission(old(self).msgs())));
        }
    }

    /// Removes the message carrying both `context_id` and `message_id`
    /// from the stack, wherever it stands. Message identifiers are handed
    /// out from one counter and never repeat, so in any reachable state at
    /// most one message matches. No emission is queued.
    pub fn remove(&mut self, context_id: u32, message_id: u32)
        requires
            old(self).wf(),
        ensures
            final(self).msgs() == drop_matching(old(self).msgs(), context_id, message_id),
            final(self).contexts == old(self).contexts,
            final(self).signals == old(self).signals,
            final(self).pending == old(self).pending,
            final(self).next_message_id == old(self).next_message_id,
            final(self).handle == old(self).handle,
            final(self).properties == old(self).properties,
            final(self).wf(),
    {
        let n = self.messages.len();
        let mut kept: Vec<Message> = Vec::new();
        let mut k: usize = 0;
        proof {
            assert(old(self).msgs().subrange(0, 0) =~= Seq::<MessageSpec>::empty());
            assert(kept@.map(|i: int, m: Message| m@) =~= Seq::<MessageSpec>::empty());
        }
        while k < n
            invariant
                self == old(self),
                n == self.messages@.len(),
                k <= n,
                kept@.map(|i: int, m: Message| m@) == drop_matching(
                    old(self).msgs().subrange(0, k as int),
                    context_id,
                    message_id,
                ),
            decreases n - k,
        {
            proof {
                let pre = old(self).msgs().subrange(0, k + 1 as int);
                assert(pre.drop_last() =~= old(self).msgs().subrange(0, k as int));
                assert(pre.last() == old(self).msgs()[k as int]);
            }
            let m = &self.messages[k];
            if !(m.context_id == context_id && m.message_id == message_id) {
                let copy = duplicate_message(m);
                kept.push(copy);
                proof {
                    assert(kept@.map(|i: int, m2: Message| m2@) =~= drop_matching(
                        old(self).msgs().subrange(0, k + 1 as int),
                        context_id,
                        message_id,
                    ));
                }
            }
            k = k + 1;
        }
        self.messages = kept;
        proof {
            assert(old(self).msgs().subrange(0, n as int) =~= old(self).msgs());
        }
    }

    /// Empties context `context_id`: removes every message carrying it.
    /// No emission is queued.
    pub fn remove_all(&mut self, context_id: u32)
        requires
            old(self).wf(),
        ensures
            final(self).msgs() == drop_context(old(self).msgs(), context_id),
            final(self).contexts == old(self).contexts,
            final(self).signals == old(self).signals,
            final(self).pending == old(self).pending,
            final(self).next_message_id == old(self).next_message_id,
            final(self).handle == old(self).handle,
            final(self).properties == old(self).properties,
            final(self).wf(),
    {
        let n = self.messages.len();
        let mut kept: Vec<Message> = Vec::new();
        let mut k: usize = 0;
        proof {
            assert(old(self).msgs().subrange(0, 0) =~= Seq::<MessageSpec>::empty());
            assert(kept@.map(|i: int, m: Message| m@) =~= Seq::<MessageSpec>::empty());
        }
        while k < n
            invariant
                self == old(self),
                n == self.messages@.len(),
                k <= n,
                kept@.map(|i: int, m: Message| m@) == drop_context(
                    old(self).msgs().subrange(0, k as int),
                    context_id,
                ),
            decreases n - k,
        {
            proof {
                let pre = old(self).msgs().subrange(0, k + 1 as int);
                assert(pre.drop_last() =~= old(self).msgs().subrange(0, k as int));
                assert(pre.last() == old(self).msgs()[k as int]);
            }
            let m = &self.messages[k];
            if m.context_id != context_id {
                let copy = duplicate_message(m);
                kept.push(copy);
                proof {
                    assert(kept@.map(|i: int, m2: Message| m2@) =~= drop_context(
                        old(self).msgs().subrange(0, k + 1 as int),
                        context_id,
                    ));
                }
            }
            k = k + 1;
        }
        self.messages = kept;
        proof {
            assert(old(self).msgs().subrange(0, n as int) =~= old(self).msgs());
        }
    }

    /// Connects one listener to the `text-popped` signal and returns its
    /// identifier.
    pub fn connect_text_popped(&mut self) -> (id: u64)
        requires
            old(self).wf(),
            old(self).signals.next_id < u64::MAX,
        ensures
            id == old(self).signals.next_id,
            final(self).signals.conns() == connect_spec(
                old(self).signals.conns(),
                "text-popped"@,
                id,
            ),
            final(self).signals.next_id == old(self).signals.next_id + 1,
            final(self).contexts == old(self).contexts,
            final(self).messages == old(self).messages,
            final(self).pending == old(self).pending,
            final(self).next_message_id == old(self).next_message_id,
            final(self).handle == old(self).handle,
            final(self).properties == old(self).properties,
            final(self).wf(),
    {
        self.signals.connect("text-popped")
    }

    /// Connects one listener to the `text-pushed` signal and returns its
    /// identifier.
    pub fn connect_text_pushed(&mut self) -> (id: u64)
        requires
            old(self).wf(),
            old(self).signals.next_id < u64::MAX,
        ensures
            id == old(self).signals.next_id,
            final(self).signals.conns() == connect_spec(
                old(self).signals.conns(),
                "text-pushed"@,
                id,
            ),
            final(self).signals.next_id == old(self).signals.next_id + 1,
            final(self).contexts == old(self).contexts,
            final(self).messages == old(self).messages,
            final(self).pending == old(self).pending,
            final(self).next_message_id == old(self).next_message_id,
            final(self).handle == old(self).handle,
            final(self).properties == old(self).properties,
            final(self).wf(),
    {
        self.signals.connect("text-pushed")
    }

    /// Cancels future delivery to connection `id`; returns whether an
    /// active connection with that identifier existed.
    pub fn disconnect(&mut self, id: u64) -> (was: bool)
        requires
            old(self).wf(),
        ensures
            final(self).signals.conns() == disconnect_spec(old(self).signals.conns(), id),
            final(self).signals.next_id == old(self).signals.next_id,
            final(self).contexts == old(self).contexts,
            final(self).messages == old(self).messages,
            final(self).pending == old(self).pending,
            final(self).next_message_id == old(self).next_message_id,
            final(self).handle == old(self).handle,
            final(self).properties == old(self).properties,
            final(self).wf(),
            was == (exists|k: int|
                0 <= k < old(self).signals.conns().len() && old(self).signals.conns()[k].id == id
                    && old(self).signals.conns()[k].active),
    {
        self.signals.disconnect(id)
    }

    /// The delivery order of one emission of `signal` on this widget.
    pub fn emission_order(&self, signal: &str) -> (ids: Vec<u64>)
        ensures
            ids@ == deliveries(self.signals.conns(), signal@),
    {
        self.signals.emission_order(signal)
    }

    /// Drains the queued emissions, oldest first, for the caller to
    /// dispatch.
    pub fn take_pending(&mut self) -> (out: Vec<Emission>)
        ensures
            out == old(self).pending,
            final(self).pending@.len() == 0,
            final(self).contexts == old(self).contexts,
            final(self).messages == old(self).messages,
            final(self).signals == old(self).signals,
            final(self).next_message_id == old(self).next_message_id,
            final(self).handle == old(self).handle,
            final(self).properties == old(self).properties,
    {
        let mut out: Vec<Emission> = Vec::new();
        core::mem::swap(&mut out, &mut self.pending);
        out
    }
}

/// A chainable, consuming builder for [`Statusbar`] objects: it exposes a
/// setter for every widget property the class registers, accumulates the
/// values in a property bag, and performs the one validated construction
/// call in [`StatusbarBuilder::build`]. Native floating-point, enumeration
/// and object-valued properties are carried as fractions in `1/65535`
/// units, enumeration codes and object indices.
pub struct StatusbarBuilder {
    pub props: PropertySet,
}

impl StatusbarBuilder {
    pub fn can_focus(self, can_focus: bool) -> (b: StatusbarBuilder)
        requires
            self.props.wf(),
        ensures
            is_set(self.props.entries@, b.props.entries@, "can-focus"@, PropValue::Bool(can_focus)),
            b.props.wf(),
    {
        let mut props = self.props;
        props.set("can-focus", PropValue::Bool(can_focus));
        StatusbarBuilder { props }
    }

    pub fn can_target(self, can_target: bool) -> (b: StatusbarBuilder)
        requires
            self.props.wf(),
        ensures
            is_set(
                self.props.entries@,
                b.props.entries@,
                "can-target"@,
                PropValue::Bool(can_target),
            ),
            b.props.wf(),
    {
        let mut props = self.props;
        props.set("can-target", PropValue::Bool(can_target));
        StatusbarBuilder { props }
    }

    pub fn css_classes(self, css_classes: Vec<String>) -> (b: StatusbarBuilder)
        requires
            self.props.wf(),
        ensures
            is_set(
                self.props.entries@,
                b.props.entries@,
                "css-classes"@,
                PropValue::TextList(css_classes),
            ),
            b.props.wf(),
    {
        let mut props = self.props;
        props.set("css-classes", PropValue::TextList(css_classes));
        StatusbarBuilder { props }
    }

    pub fn css_name(self, css_name: String) -> (b: StatusbarBuilder)
        requires
            self.props.wf(),
        ensures
            is_set(self.props.entries@, b.props.entries@, "css-name"@, PropValue::Text(css_name)),
            b.props.wf(),
    {
        let mut props = self.props;
        props.set("css-name", PropValue::Text(css_name));
        StatusbarBuilder { props }
    }

    /// The cursor to show over the widget, as the index of a cursor object.
    pub fn cursor(self, cursor: usize) -> (b: StatusbarBuilder)
        requires
            self.props.wf(),
        ensures
            is_set(self.props.entries@, b.props.entries@, "cursor"@, PropValue::ObjectRef(cursor)),
            b.props.wf(),
    {
        let mut props = self.props;
        props.set("cursor", PropValue::ObjectRef(cursor));
        StatusbarBuilder { props }
    }

    pub fn focus_on_click(self, focus_on_click: bool) -> (b: StatusbarBuilder)
        requires
            self.props.wf(),
        ensures
            is_set(
                self.props.entries@,
                b.props.entries@,
                "focus-on-click"@,
                PropValue::Bool(focus_on_click),
            ),
            b.props.wf(),
    {
        let mut props = self.props;
        props.set("focus-on-click", PropValue::Bool(focus_on_click));
        StatusbarBuilder { props }
    }

    pub fn focusable(self, focusable: bool) -> (b: StatusbarBuilder)
        requires
            self.props.wf(),
        ensures
            is_set(self.props.entries@, b.props.entries@, "focusable"@, PropValue::Bool(focusable)),
            b.props.wf(),
    {
        let mut props = self.props;
        props.set("focusable", PropValue::Bool(focusable));
        StatusbarBuilder { props }
    }

    /// The horizontal alignment, as the native enumeration's code.
    pub fn halign(self, halign: u32) -> (b: StatusbarBuilder)
        requires
            self.props.wf(),
        ensures
            is_set(self.props.entries@, b.props.entries@, "halign"@, PropValue::EnumCode(halign)),
            b.props.wf(),
    {
        let mut props = self.props;
        props.set("halign", PropValue::EnumCode(halign));
        StatusbarBuilder { props }
    }

    pub fn has_tooltip(self, has_tooltip: bool) -> (b: StatusbarBuilder)
        requires
            self.props.wf(),
        ensures
            is_set(
                self.props.entries@,
                b.props.entries@,
                "has-tooltip"@,
                PropValue::Bool(has_tooltip),
            ),
            b.props.wf(),
    {
        let mut props = self.props;
        props.set("has-tooltip", PropValue::Bool(has_tooltip));
        StatusbarBuilder { props }
    }

    pub fn height_request(self, height_request: i32) -> (b: StatusbarBuilder)
        requires
            self.props.wf(),
        ensures
            is_set(
                self.props.entries@,
                b.props.entries@,
                "height-request"@,
                PropValue::Int(height_request),
            ),
            b.props.wf(),
    {
        let mut props = self.props;
        props.set("height-request", PropValue::Int(height_request));
        StatusbarBuilder { props }
    }

    pub fn hexpand(self, hexpand: bool) -> (b: StatusbarBuilder)
        requires
            self.props.wf(),
        ensures
            is_set(self.props.entries@, b.props.entries@, "hexpand"@, PropValue::Bool(hexpand)),
            b.props.wf(),
    {
        let mut props = self.props;
        props.set("hexpand", PropValue::Bool(hexpand));
        StatusbarBuilder { props }
    }

    pub fn hexpand_set(self, hexpand_set: bool) -> (b: StatusbarBuilder)
        requires
            self.props.wf(),
        ensures
            is_set(
                self.props.entries@,
                b.props.entries@,
                "hexpand-set"@,
                PropValue::Bool(hexpand_set),
            ),
            b.props.wf(),
    {
        let mut props = self.props;
        props.set("hexpand-set", PropValue::Bool(hexpand_set));
        StatusbarBuilder { props }
    }

    /// The layout manager, as the index of a layout-manager object.
    pub fn layout_manager(self, layout_manager: usize) -> (b: StatusbarBuilder)
        requires
            self.props.wf(),
        ensures
            is_set(
                self.props.entries@,
                b.props.entries@,
                "layout-manager"@,
                PropValue::ObjectRef(layout_manager),
            ),
            b.props.wf(),
    {
        let mut props = self.props;
        props.set("layout-manager", PropValue::ObjectRef(layout_manager));
        StatusbarBuilder { props }
    }

    pub fn margin_bottom(self, margin_bottom: i32) -> (b: StatusbarBuilder)
        requires
            self.props.wf(),
        ensures
            is_set(
                self.props.entries@,
                b.props.entries@,
                "margin-bottom"@,
                PropValue::Int(margin_bottom),
            ),
            b.props.wf(),
    {
        let mut props = self.props;
        props.set("margin-bottom", PropValue::Int(margin_bottom));
        StatusbarBuilder { props }
    }

    pub fn margin_end(self, margin_end: i32) -> (b: StatusbarBuilder)
        requires
            self.props.wf(),
        ensures
            is_set(self.props.entries@, b.props.entries@, "margin-end"@, PropValue::Int(margin_end)),
            b.props.wf(),
    {
        let mut props = self.props;
        props.set("margin-end", PropValue::Int(margin_end));
        StatusbarBuilder { props }
    }

    pub fn margin_start(self, margin_start: i32) -> (b: StatusbarBuilder)
        requires
            self.props.wf(),
        ensures
            is_set(
                self.props.entries@,
                b.props.entries@,
                "margin-start"@,
                PropValue::Int(margin_start),
            ),
            b.props.wf(),
    {
        let mut props = self.props;
        props.set("margin-start", PropValue::Int(margin_start));
        StatusbarBuilder { props }
    }

    pub fn margin_top(self, margin_top: i32) -> (b: StatusbarBuilder)
        requires
            self.props.wf(),
        ensures
            is_set(self.props.entries@, b.props.entries@, "margin-top"@, PropValue::Int(margin_top)),
            b.props.wf(),
    {
        let mut props = self.props;
        props.set("margin-top", PropValue::Int(margin_top));
        StatusbarBuilder { props }
    }

    pub fn name(self, name: String) -> (b: StatusbarBuilder)
        requires
            self.props.wf(),
        ensures
            is_set(self.props.entries@, b.props.entries@, "name"@, PropValue::Text(name)),
            b.props.wf(),
    {
        let mut props = self.props;
        props.set("name", PropValue::Text(name));
        StatusbarBuilder { props }
    }

    /// The opacity, as a fraction of the unit interval in `1/65535` units.
    pub fn opacity(self, opacity: u16) -> (b: StatusbarBuilder)
        requires
            self.props.wf(),
        ensures
            is_set(self.props.entries@, b.props.entries@, "opacity"@, PropValue::Fraction(opacity)),
            b.props.wf(),
    {
        let mut props = self.props;
        props.set("opacity", PropValue::Fraction(opacity));
        StatusbarBuilder { props }
    }

    /// The overflow behavior, as the native enumeration's code.
    pub fn overflow(self, overflow: u32) -> (b: StatusbarBuilder)
        requires
            self.props.wf(),
        ensures
            is_set(self.props.entries@, b.props.entries@, "overflow"@, PropValue::EnumCode(overflow)),
            b.props.wf(),
    {
        let mut props = self.props;
        props.set("overflow", PropValue::EnumCode(overflow));
        StatusbarBuilder { props }
    }

    pub fn receives_default(self, receives_default: bool) -> (b: StatusbarBuilder)
        requires
            self.props.wf(),
        ensures
            is_set(
                self.props.entries@,
                b.props.entries@,
                "receives-default"@,
                PropValue::Bool(receives_default),
            ),
            b.props.wf(),
    {
        let mut props = self.props;
        props.set("receives-default", PropValue::Bool(receives_default));
        StatusbarBuilder { props }
    }

    pub fn sensitive(self, sensitive: bool) -> (b: StatusbarBuilder)
        requires
            self.props.wf(),
        ensures
            is_set(self.props.entries@, b.props.entries@, "sensitive"@, PropValue::Bool(sensitive)),
            b.props.wf(),
    {
        let mut props = self.props;
        props.set("sensitive", PropValue::Bool(sensitive));
        StatusbarBuilder { props }
    }

    pub fn tooltip_markup(self, tooltip_markup: String) -> (b: StatusbarBuilder)
        requires
            self.props.wf(),
        ensures
            is_set(
                self.props.entries@,
                b.props.entries@,
                "tooltip-markup"@,
                PropValue::Text(tooltip_markup),
            ),
            b.props.wf(),
    {
        let mut props = self.props;
        props.set("tooltip-markup", PropValue::Text(tooltip_markup));
        StatusbarBuilder { props }
    }

    pub fn tooltip_text(self, tooltip_text: String) -> (b: StatusbarBuilder)
        requires
            self.props.wf(),
        ensures
            is_set(
                self.props.entries@,
                b.props.entries@,
                "tooltip-text"@,
                PropValue::Text(tooltip_text),
            ),
            b.props.wf(),
    {
        let mut props = self.props;
        props.set("tooltip-text", PropValue::Text(tooltip_text));
        StatusbarBuilder { props }
    }

    /// The vertical alignment, as the native enumeration's code.
    pub fn valign(self, valign: u32) -> (b: StatusbarBuilder)
        requires
            self.props.wf(),
        ensures
            is_set(self.props.entries@, b.props.entries@, "valign"@, PropValue::EnumCode(valign)),
            b.props.wf(),
    {
        let mut props = self.props;
        props.set("valign", PropValue::EnumCode(valign));
        StatusbarBuilder { props }
    }

    pub fn vexpand(self, vexpand: bool) -> (b: StatusbarBuilder)
        requires
            self.props.wf(),
        ensures
            is_set(self.props.entries@, b.props.entries@, "vexpand"@, PropValue::Bool(vexpand)),
            b.props.wf(),
    {
        let mut props = self.props;
        props.set("vexpand", PropValue::Bool(vexpand));
        StatusbarBuilder { props }
    }

    pub fn vexpand_set(self, vexpand_set: bool) -> (b: StatusbarBuilder)
        requires
            self.props.wf(),
        ensures
            is_set(
                self.props.entries@,
                b.props.entries@,
                "vexpand-set"@,
                PropValue::Bool(vexpand_set),
            ),
            b.props.wf(),
    {
        let mut props = self.props;
        props.set("vexpand-set", PropValue::Bool(vexpand_set));
        StatusbarBuilder { props }
    }

    pub fn visible(self, visible: bool) -> (b: StatusbarBuilder)
        requires
            self.props.wf(),
        ensures
            is_set(self.props.entries@, b.props.entries@, "visible"@, PropValue::Bool(visible)),
            b.props.wf(),
    {
        let mut props = self.props;
        props.set("visible", PropValue::Bool(visible));
        StatusbarBuilder { props }
    }

    pub fn width_request(self, width_request: i32) -> (b: StatusbarBuilder)
        requires
            self.props.wf(),
        ensures
            is_set(
                self.props.entries@,
                b.props.entries@,
                "width-request"@,
                PropValue::Int(width_request),
            ),
            b.props.wf(),
    {
        let mut props = self.props;
        props.set("width-request", PropValue::Int(width_request));
        StatusbarBuilder { props }
    }

    /// The accessible role, as the native enumeration's code.
    pub fn accessible_role(self, accessible_role: u32) -> (b: StatusbarBuilder)
        requires
            self.props.wf(),
        ensures
            is_set(
                self.props.entries@,
                b.props.entries@,
                "accessible-role"@,
                PropValue::EnumCode(accessible_role),
            ),
            b.props.wf(),
    {
        let mut props = self.props;
        props.set("accessible-role", PropValue::EnumCode(accessible_role));
        StatusbarBuilder { props }
    }

    /// Performs the one validated construction call: every accumulated
    /// name must be registered in `schema`, or the bag is rejected with
    /// the first unknown name before anything is allocated, leaving the
    /// heap unchanged. A valid bag allocates one native object, hands it
    /// the whole accumulated set atomically, and wraps it in a fresh,
    /// empty status bar carrying exactly that set.
    pub fn build(
        self,
        schema: &Schema,
        heap: &mut ObjectHeap,
        reg: &TypeRegistry,
        class: usize,
    ) -> (r: Result<Statusbar, BuildError>)
        requires
            reg.wf(),
            reg.is_type(class as int),
            old(heap).slots@.len() < usize::MAX,
        ensures
            ({
                let names = self.props.names();
                match r {
                    Ok(sb) => {
                        &&& forall|j: int| 0 <= j < names.len() ==> schema.registered(names[j])
                        &&& final(heap).slots@ == allocate_spec(old(heap).slots@, class)
                        &&& sb.handle == (SafeHandle {
                            object: old(heap).slots@.len() as usize,
                            capability: class,
                        })
                        &&& sb.handle.wf(*final(heap), *reg)
                        &&& sb.properties == self.props
                        &&& sb.ctxs().len() == 0
                        &&& sb.msgs().len() == 0
                        &&& sb.pend().len() == 0
                        &&& sb.next_message_id == 1
                        &&& sb.signals.conns().len() == 0
                        &&& sb.wf()
                    },
                    Err(e) => {
                        &&& *final(heap) == *old(heap)
                        &&& exists|j: int|
                            #![auto]
                            0 <= j < names.len() && !schema.registered(names[j]) && (forall|
                                i2: int,
                            |
                                0 <= i2 < j ==> schema.registered(names[i2])) && e.name@ == names[j]
                    },
                }
            }),
    {
        match self.props.build_object(schema, heap, reg, class) {
            Ok(obj) => {
                let sb = Statusbar {
                    handle: obj.handle,
                    properties: obj.properties,
                    contexts: Vec::new(),
                    messages: Vec::new(),
                    next_message_id: 1,
                    signals: SignalHub::new(),
                    pending: Vec::new(),
                };
                proof {
                    assert(sb.ctxs() =~= Seq::<Seq<char>>::empty());
                    assert(sb.msgs() =~= Seq::<MessageSpec>::empty());
                    assert(sb.pend() =~= Seq::<EmissionSpec>::empty());
                }
                Ok(sb)
            },
            Err(e) => Err(e),
        }
    }
}

/// Whether `name` is a property the status bar class registers.
pub open spec fn statusbar_property(name: Seq<char>) -> bool {
    ||| name == "can-focus"@
    ||| name == "can-target"@
    ||| name == "css-classes"@
    ||| name == "css-name"@
    ||| name == "cursor"@
    ||| name == "focus-on-click"@
    ||| name == "focusable"@
    ||| name == "halign"@
    ||| name == "has-tooltip"@
    ||| name == "height-request"@
    ||| name == "hexpand"@
    ||| name == "hexpand-set"@
    ||| name == "layout-manager"@
    ||| name == "margin-bottom"@
    ||| name == "margin-end"@
    ||| name == "margin-start"@
    ||| name == "margin-top"@
    ||| name == "name"@
    ||| name == "opacity"@
    ||| name == "overflow"@
    ||| name == "receives-default"@
    ||| name == "sensitive"@
    ||| name == "tooltip-markup"@
    ||| name == "tooltip-text"@
    ||| name == "valign"@
    ||| name == "vexpand"@
    ||| name == "vexpand-set"@
    ||| name == "visible"@
    ||| name == "width-request"@
    ||| name == "accessible-role"@
}

/// The property schema of the status bar class: exactly the names its
/// builder exposes a setter for.
pub fn statusbar_schema() -> (s: Schema)
    ensures
        forall|n: Seq<char>| s.registered(n) == statusbar_property(n),
{
    let mut s = Schema::new();
    s.register("can-focus");
    s.register("can-target");
    s.register("css-classes");
    s.register("css-name");
    s.register("cursor");
    s.register("focus-on-click");
    s.register("focusable");
    s.register("halign");
    s.register("has-tooltip");
    s.register("height-request");
    s.register("hexpand");
    s.register("hexpand-set");
    s.register("layout-manager");
    s.register("margin-bottom");
    s.register("margin-end");
    s.register("margin-start");
    s.register("margin-top");
    s.register("name");
    s.register("opacity");
    s.register("overflow");
    s.register("receives-default");
    s.register("sensitive");
    s.register("tooltip-markup");
    s.register("tooltip-text");
    s.register("valign");
    s.register("vexpand");
    s.register("vexpand-set");
    s.register("visible");
    s.register("width-request");
    s.register("accessible-role");
    s
}

/// A field-for-field copy of one message.
fn duplicate_message(m: &Message) -> (r: Message)
    ensures
        r == *m,
{
    Message { message_id: m.message_id, context_id: m.context_id, text: m.text.clone() }
}

} // verus!
