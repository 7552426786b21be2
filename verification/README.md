# MKS-7 CLAP Controller

Controllers for the three parts of a Roland MKS-7 (Melody, Chord, Bass), as a CLAP plug-in
bundle. The logic is a Verus-verified library; the plug-in glue and the CoreMIDI transport are
ordinary Rust around it.

- `src/protocol.rs`: the MKS-7 message formats (parameter SysEx, control changes, packed
  switch bytes) and the parameter tables.
- `src/model.rs`: the state of one controller instance: values, switches, modulation, what is
  pending, the sender's choice of the next message, and the saved-state format (versions 1 to 5).
- `src/params.rs`: what the host is told: parameter descriptions, value labels and their
  inverse, typed-value bounds, remote-control pages, plug-in ids and names.
- `src/midi.rs`: the table of MIDI outputs an instance offers, "None" first.
- `src/sender.rs`: the decisions of the sending thread.
- `src/laws.rs`: properties that span several operations, proved.
- `app/`: the CLAP entry, factory and extensions, host-event decoding, and CoreMIDI I/O.
