use vstd::prelude::*;

verus! {

/// A named value of a debug event.
#[derive(Clone, Debug)]
pub struct EventField {
    pub name: String,
    pub value: String,
}

impl View for EventField {
    type V = (Seq<char>, Seq<char>);

    open spec fn view(&self) -> (Seq<char>, Seq<char>) {
        (self.name@, self.value@)
    }
}

/// One debug-level event: a message and its fields, in the order they are emitted.
#[derive(Clone, Debug)]
pub struct DebugEvent {
    pub message: String,
    pub fields: Vec<EventField>,
}

impl View for DebugEvent {
    type V = (Seq<char>, Seq<(Seq<char>, Seq<char>)>);

    open spec fn view(&self) -> (Seq<char>, Seq<(Seq<char>, Seq<char>)>) {
        (self.message@, self.fields@.map_values(|f: EventField| f@))
    }
}

/// The views of a sequence of events.
pub open spec fn events_view(evs: Seq<DebugEvent>) -> Seq<(Seq<char>, Seq<(Seq<char>, Seq<char>)>)> {
    evs.map_values(|e: DebugEvent| e@)
}

impl EventField {
    /// A field with the given name and a copy of the given value.
    pub fn new(name: &str, value: &str) -> (r: Self)
        ensures
            r@ == (name@, value@),
    {
        EventField { name: name.to_owned(), value: value.to_owned() }
    }
}

impl DebugEvent {
    /// An event with the given message and no fields yet.
    pub fn new(message: &str) -> (r: Self)
        ensures
            r@ == (message@, Seq::<(Seq<char>, Seq<char>)>::empty()),
    {
        let r = DebugEvent { message: message.to_owned(), fields: Vec::new() };
        assert(r@.1 =~= Seq::<(Seq<char>, Seq<char>)>::empty());
        r
    }

    /// Appends a field to the event.
    pub fn push_field(&mut self, name: &str, value: &str)
        ensures
            final(self)@ == (old(self)@.0, old(self)@.1.push((name@, value@))),
    {
        self.fields.push(EventField::new(name, value));
        assert(self@.1 =~= old(self)@.1.push((name@, value@)));
    }
}

} // verus!
