use toolkit_glue::handle::ObjectHeap;
use toolkit_glue::handle::TypeRegistry;
use toolkit_glue::props::PropValue;
use toolkit_glue::props::Schema;
use toolkit_glue::props::PropertySet;
use toolkit_glue::statusbar::Statusbar;
use toolkit_glue::statusbar::statusbar_schema;

fn setting() -> (ObjectHeap, TypeRegistry, usize) {
    let mut reg = TypeRegistry::new();
    let t_object = reg.register(None, Vec::new());
    let t_widget = reg.register(Some(t_object), Vec::new());
    let t_statusbar = reg.register(Some(t_widget), Vec::new());
    (ObjectHeap::new(), reg, t_statusbar)
}

#[test]
fn build_with_registered_properties_succeeds() {
    let (mut heap, reg, class) = setting();
    let schema = statusbar_schema();
    let built = Statusbar::builder()
        .can_focus(true)
        .margin_top(4)
        .css_name(String::from("statusbar"))
        .visible(true)
        .build(&schema, &mut heap, &reg, class);
    assert_eq!(heap.slots.len(), 1);
    assert_eq!(heap.refs_at(0), 1);
    // the constructed widget carries the whole accumulated set
    let sb = built.unwrap();
    assert_eq!(sb.properties.entries.len(), 4);
    assert_eq!(sb.properties.entries[0].name, "can-focus");
    assert!(matches!(sb.properties.entries[0].value, PropValue::Bool(true)));
    assert_eq!(sb.properties.entries[1].name, "margin-top");
    assert!(matches!(sb.properties.entries[1].value, PropValue::Int(4)));
    assert_eq!(sb.properties.entries[3].name, "visible");
}

#[test]
fn build_with_unknown_property_is_rejected_before_construction() {
    let (mut heap, reg, class) = setting();
    let schema = statusbar_schema();
    let mut props = PropertySet::new();
    props.set("visible", PropValue::Bool(true));
    props.set("frobnicate", PropValue::Int(3));
    props.set("blargh", PropValue::Bool(false));
    match props.build_object(&schema, &mut heap, &reg, class) {
        Ok(_) => panic!("an unknown property name must be rejected"),
        Err(e) => assert_eq!(e.name, "frobnicate"),
    }
    assert_eq!(heap.slots.len(), 0);
}

#[test]
fn setting_a_property_twice_overwrites_it() {
    let mut props = PropertySet::new();
    props.set("visible", PropValue::Bool(true));
    props.set("visible", PropValue::Bool(false));
    assert_eq!(props.len(), 1);
}

#[test]
fn context_ids_are_stable_per_description() {
    let (mut heap, reg, class) = setting();
    let mut sb = Statusbar::new(&mut heap, &reg, class);
    assert_eq!(sb.context_id("uploads"), 1);
    assert_eq!(sb.context_id("downloads"), 2);
    assert_eq!(sb.context_id("uploads"), 1);
    assert_eq!(sb.context_id("downloads"), 2);
}

#[test]
fn push_and_pop_follow_the_context_stacks() {
    let (mut heap, reg, class) = setting();
    let mut sb = Statusbar::new(&mut heap, &reg, class);
    let c1 = sb.context_id("one");
    let c2 = sb.context_id("two");
    let m1 = sb.push(c1, "hello");
    let m2 = sb.push(c2, "other");
    let m3 = sb.push(c1, "world");
    assert_eq!((m1, m2, m3), (1, 2, 3));
    sb.pop(c1);
    // "world" left c1; "hello" and "other" stay, in order
    assert_eq!(sb.messages.len(), 2);
    assert_eq!(sb.messages[0].text, "hello");
    assert_eq!(sb.messages[1].text, "other");
    sb.pop(c1);
    assert_eq!(sb.messages.len(), 1);
    assert_eq!(sb.messages[0].text, "other");
    // popping an empty context leaves the stack unchanged
    sb.pop(c1);
    assert_eq!(sb.messages.len(), 1);
}

#[test]
fn push_and_pop_queue_emissions() {
    let (mut heap, reg, class) = setting();
    let mut sb = Statusbar::new(&mut heap, &reg, class);
    let c1 = sb.context_id("one");
    sb.push(c1, "hello");
    sb.push(c1, "world");
    sb.pop(c1);
    let emissions = sb.take_pending();
    assert_eq!(emissions.len(), 3);
    assert_eq!(emissions[0].signal, "text-pushed");
    assert_eq!(emissions[0].text, "hello");
    assert_eq!(emissions[1].signal, "text-pushed");
    assert_eq!(emissions[1].text, "world");
    // the pop reports the message now topmost: "hello" is shown again
    assert_eq!(emissions[2].signal, "text-popped");
    assert_eq!(emissions[2].context_id, c1);
    assert_eq!(emissions[2].text, "hello");
    assert_eq!(sb.take_pending().len(), 0);
    // popping the last message reports an empty statusbar
    sb.pop(c1);
    let emissions = sb.take_pending();
    assert_eq!(emissions.len(), 1);
    assert_eq!(emissions[0].signal, "text-popped");
    assert_eq!(emissions[0].context_id, 0);
    assert_eq!(emissions[0].text, "");
}

#[test]
fn pop_reports_the_new_top_of_another_context() {
    let (mut heap, reg, class) = setting();
    let mut sb = Statusbar::new(&mut heap, &reg, class);
    let c1 = sb.context_id("one");
    let c2 = sb.context_id("two");
    sb.push(c1, "a");
    sb.push(c2, "b");
    sb.take_pending();
    // removing "a" from c1 leaves "b" of c2 topmost, and the emission says so
    sb.pop(c1);
    let emissions = sb.take_pending();
    assert_eq!(emissions.len(), 1);
    assert_eq!(emissions[0].signal, "text-popped");
    assert_eq!(emissions[0].context_id, c2);
    assert_eq!(emissions[0].text, "b");
    // popping a context with nothing stacked still reports the current top
    sb.pop(c1);
    let emissions = sb.take_pending();
    assert_eq!(emissions.len(), 1);
    assert_eq!(emissions[0].context_id, c2);
    assert_eq!(emissions[0].text, "b");
}

#[test]
fn remove_takes_one_message_by_identifier() {
    let (mut heap, reg, class) = setting();
    let mut sb = Statusbar::new(&mut heap, &reg, class);
    let c1 = sb.context_id("one");
    let _m1 = sb.push(c1, "a");
    let m2 = sb.push(c1, "b");
    let _m3 = sb.push(c1, "c");
    sb.remove(c1, m2);
    assert_eq!(sb.messages.len(), 2);
    assert_eq!(sb.messages[0].text, "a");
    assert_eq!(sb.messages[1].text, "c");
    // a wrong context removes nothing
    sb.remove(c1 + 7, 1);
    assert_eq!(sb.messages.len(), 2);
}

#[test]
fn remove_all_empties_one_context() {
    let (mut heap, reg, class) = setting();
    let mut sb = Statusbar::new(&mut heap, &reg, class);
    let c1 = sb.context_id("one");
    let c2 = sb.context_id("two");
    sb.push(c1, "a");
    sb.push(c2, "b");
    sb.push(c1, "c");
    sb.remove_all(c1);
    assert_eq!(sb.messages.len(), 1);
    assert_eq!(sb.messages[0].text, "b");
}

#[test]
fn two_connections_fire_in_registration_order() {
    let (mut heap, reg, class) = setting();
    let mut sb = Statusbar::new(&mut heap, &reg, class);
    let c1 = sb.connect_text_pushed();
    let c2 = sb.connect_text_pushed();
    assert!(c1 < c2);
    let ctx = sb.context_id("one");
    sb.push(ctx, "hello");
    let emissions = sb.take_pending();
    assert_eq!(emissions.len(), 1);
    // dispatch the emission: both listeners fire, registration order kept
    let order = sb.emission_order(emissions[0].signal.as_str());
    assert_eq!(order, vec![c1, c2]);
    let mut log: Vec<&str> = Vec::new();
    for id in order {
        if id == c1 {
            log.push("first");
        } else if id == c2 {
            log.push("second");
        }
    }
    assert_eq!(log, vec!["first", "second"]);
}

#[test]
fn disconnecting_one_leaves_the_other() {
    let (mut heap, reg, class) = setting();
    let mut sb = Statusbar::new(&mut heap, &reg, class);
    let c1 = sb.connect_text_pushed();
    let c2 = sb.connect_text_pushed();
    assert!(sb.disconnect(c1));
    assert_eq!(sb.emission_order("text-pushed"), vec![c2]);
    // a second disconnection of the same identifier reports nothing to do
    assert!(!sb.disconnect(c1));
    assert_eq!(sb.emission_order("text-pushed"), vec![c2]);
}

#[test]
fn signals_are_kept_apart() {
    let (mut heap, reg, class) = setting();
    let mut sb = Statusbar::new(&mut heap, &reg, class);
    let popped = sb.connect_text_popped();
    let pushed = sb.connect_text_pushed();
    assert_eq!(sb.emission_order("text-popped"), vec![popped]);
    assert_eq!(sb.emission_order("text-pushed"), vec![pushed]);
    assert_eq!(sb.emission_order("map"), Vec::<u64>::new());
}

#[test]
fn builder_names_are_checked_against_the_given_schema() {
    let (mut heap, reg, class) = setting();
    // a schema that registers nothing rejects the first accumulated name
    let empty = Schema::new();
    let built = Statusbar::builder().can_focus(true).visible(true).build(&empty, &mut heap, &reg, class);
    match built {
        Ok(_) => panic!("a schema without the name must reject the bag"),
        Err(e) => assert_eq!(e.name, "can-focus"),
    }
    assert_eq!(heap.slots.len(), 0);
}
