use vstd::prelude::*;

verus! {

/// A MIDI destination the controller can send to: its unique id and display name.
#[derive(Debug, PartialEq, Eq)]
pub struct MidiOutput {
    pub unique_id: i32,
    pub name: String,
}

/// The MIDI outputs an instance offers, "None" first.
pub struct MidiBackend {
    outputs: Vec<MidiOutput>,
}

impl View for MidiBackend {
    type V = Seq<(i32, Seq<char>)>;

    closed spec fn view(&self) -> Seq<(i32, Seq<char>)> {
        self.outputs@.map_values(|o: MidiOutput| (o.unique_id, o.name@))
    }
}

/// The output table that lists `destinations` after "None" (unique id 0).
pub open spec fn output_table(destinations: Seq<MidiOutput>) -> Seq<(i32, Seq<char>)> {
    seq![(0i32, "None"@)] + destinations.map_values(|o: MidiOutput| (o.unique_id, o.name@))
}

/// The number of outputs the host can choose from; never 0.
pub open spec fn spec_output_count(outputs: Seq<(i32, Seq<char>)>) -> int {
    if outputs.len() == 0 {
        1
    } else {
        outputs.len() as int
    }
}

/// The name of output `index`, "None" if there is no such output.
pub open spec fn spec_output_name(outputs: Seq<(i32, Seq<char>)>, index: int) -> Seq<char> {
    if 0 <= index < outputs.len() {
        outputs[index].1
    } else {
        "None"@
    }
}

/// The unique id of output `index`, 0 if there is no such output.
pub open spec fn spec_output_id(outputs: Seq<(i32, Seq<char>)>, index: int) -> i32 {
    if 0 <= index < outputs.len() {
        outputs[index].0
    } else {
        0
    }
}

impl MidiBackend {
    /// The outputs "None" and then `destinations`, in the order they were found.
    pub fn new(destinations: Vec<MidiOutput>) -> (r: MidiBackend)
        ensures
            r@ == output_table(destinations@),
    {
        let mut outputs: Vec<MidiOutput> = Vec::new();
        outputs.push(MidiOutput { unique_id: 0, name: "None".to_owned() });
        let mut rest = destinations;
        let ghost found = rest@;
        outputs.append(&mut rest);
        let r = MidiBackend { outputs };
        assert(r@ =~= output_table(found));
        r
    }

    /// The number of outputs to choose from, at least 1.
    pub fn count(&self) -> (r: usize)
        ensures
            r == spec_output_count(self@),
    {
        if self.outputs.len() == 0 {
            1
        } else {
            self.outputs.len()
        }
    }

    /// The display name of output `index`, "None" if there is no such output.
    pub fn name(&self, index: usize) -> (r: &str)
        ensures
            r@ == spec_output_name(self@, index as int),
    {
        if index < self.outputs.len() {
            self.outputs[index].name.as_str()
        } else {
            "None"
        }
    }

    /// The unique ids of all outputs, in order.
    pub fn unique_ids(&self) -> (r: Vec<i32>)
        ensures
            r@ == self@.map_values(|o: (i32, Seq<char>)| o.0),
    {
        let mut ids: Vec<i32> = Vec::new();
        let len = self.outputs.len();
        for i in 0..len
            invariant
                len == self@.len(),
                ids@ == self@.take(i as int).map_values(|o: (i32, Seq<char>)| o.0),
        {
            ids.push(self.outputs[i].unique_id);
            assert(self@.take(i + 1).map_values(|o: (i32, Seq<char>)| o.0) =~= self@.take(
                i as int,
            ).map_values(|o: (i32, Seq<char>)| o.0).push(self@[i as int].0));
        }
        assert(self@.take(len as int) =~= self@);
        ids
    }

    /// The unique id of output `index`, 0 if there is no such output.
    pub fn unique_id(&self, index: usize) -> (r: i32)
        ensures
            r == spec_output_id(self@, index as int),
    {
        if index < self.outputs.len() {
            self.outputs[index].unique_id
        } else {
            0
        }
    }
}

} // verus!
