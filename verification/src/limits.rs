//! What a glob may ask of the engine: how long it is, and how deep its
//! alternates nest.
//!
//! The engine parses a glob in a loop and then writes out its regular
//! expression by recursion, one level for each `{` that is open. The depth
//! is measured here on the pattern's bytes, as the engine's parser reads
//! them: a `{` opens a level and a `}` closes one, but not inside a class
//! `[...]` and not behind an escaping backslash. Whether a backslash escapes
//! depends on the platform that the engine is built for, so the pattern is
//! read both ways and the deeper reading counts.

use vstd::prelude::*;
use vstd::string::StringSliceAdditionalSpecFns;
use vstd::utf8::encode_utf8;

verus! {

/// The most bytes of a glob that this library hands to the engine. The
/// engine gives every state of a literal's automaton an identifier of 31
/// bits, and a literal has a state for each of its bytes.
pub const MAX_GLOB_BYTES: usize = 0x4000_0000;

/// The deepest nesting of alternates that this library hands to the engine.
/// It is the depth to which the engine lets its regular expressions nest.
pub const MAX_GLOB_DEPTH: usize = 250;

/// Where the parser stands as it reads a glob.
#[derive(Clone, Copy, Debug, PartialEq, Eq, Structural)]
pub enum Mode {
    /// Outside a class, the next byte not escaped.
    Plain,
    /// Behind an escaping backslash: the next character stands for itself.
    Escaped,
    /// Behind the `[` that opens a class.
    ClassOpened,
    /// Behind the `!` or `^` that negates a class.
    ClassNegated,
    /// Inside a class, behind its first character: a `]` closes it.
    ClassBody,
}

/// How far a glob has been read.
pub struct Reading {
    pub mode: Mode,
    /// How many alternates are open.
    pub depth: nat,
    /// The most that were open at once.
    pub deepest: nat,
}

impl Reading {
    /// Before the first byte.
    pub open spec fn start() -> Reading {
        Reading { mode: Mode::Plain, depth: 0, deepest: 0 }
    }

    /// After one more byte. `escapes` says whether a backslash escapes.
    pub open spec fn read(self, escapes: bool, byte: u8) -> Reading {
        match self.mode {
            Mode::Plain => {
                if byte == 0x5c && escapes {
                    Reading { mode: Mode::Escaped, ..self }
                } else if byte == 0x5b {
                    Reading { mode: Mode::ClassOpened, ..self }
                } else if byte == 0x7b {
                    Reading {
                        depth: self.depth + 1,
                        deepest: if self.depth + 1 > self.deepest {
                            self.depth + 1
                        } else {
                            self.deepest
                        },
                        ..self
                    }
                } else if byte == 0x7d && self.depth > 0 {
                    Reading { depth: (self.depth - 1) as nat, ..self }
                } else {
                    self
                }
            },
            Mode::Escaped => Reading { mode: Mode::Plain, ..self },
            Mode::ClassOpened => {
                if byte == 0x21 || byte == 0x5e {
                    Reading { mode: Mode::ClassNegated, ..self }
                } else {
                    Reading { mode: Mode::ClassBody, ..self }
                }
            },
            Mode::ClassNegated => Reading { mode: Mode::ClassBody, ..self },
            Mode::ClassBody => {
                if byte == 0x5d {
                    Reading { mode: Mode::Plain, ..self }
                } else {
                    self
                }
            },
        }
    }
}

/// The reading of all of `bytes`.
pub open spec fn reading_of(bytes: Seq<u8>, escapes: bool) -> Reading
    decreases bytes.len(),
{
    if bytes.len() == 0 {
        Reading::start()
    } else {
        reading_of(bytes.drop_last(), escapes).read(escapes, bytes.last())
    }
}

/// The deepest that the alternates of a glob nest, read either way.
pub open spec fn depth_of(bytes: Seq<u8>) -> nat {
    let with = reading_of(bytes, true).deepest;
    let without = reading_of(bytes, false).deepest;
    if with >= without {
        with
    } else {
        without
    }
}

/// The deepest that the alternates of the glob `pattern` nest.
pub open spec fn glob_depth(pattern: Seq<char>) -> nat {
    depth_of(encode_utf8(pattern))
}

/// How many bytes the glob `pattern` has.
pub open spec fn glob_bytes(pattern: Seq<char>) -> nat {
    encode_utf8(pattern).len()
}

/// Whether the glob `pattern` is within what the engine can take: no longer
/// than `MAX_GLOB_BYTES`, and nested no deeper than `MAX_GLOB_DEPTH`.
pub open spec fn glob_fits(pattern: Seq<char>) -> bool {
    glob_bytes(pattern) <= MAX_GLOB_BYTES && glob_depth(pattern) <= MAX_GLOB_DEPTH
}

/// A reading, as it is computed.
struct Counted {
    mode: Mode,
    depth: usize,
    deepest: usize,
}

impl View for Counted {
    type V = Reading;

    closed spec fn view(&self) -> Reading {
        Reading { mode: self.mode, depth: self.depth as nat, deepest: self.deepest as nat }
    }
}

/// Reads one more byte.
fn read_on(counted: Counted, escapes: bool, byte: u8) -> (next: Counted)
    requires
        counted.depth < usize::MAX,
    ensures
        next@ == counted@.read(escapes, byte),
        next.depth <= counted.depth + 1,
{
    match counted.mode {
        Mode::Plain => {
            if byte == 0x5c && escapes {
                Counted { mode: Mode::Escaped, depth: counted.depth, deepest: counted.deepest }
            } else if byte == 0x5b {
                Counted { mode: Mode::ClassOpened, depth: counted.depth, deepest: counted.deepest }
            } else if byte == 0x7b {
                let depth = counted.depth + 1;
                Counted {
                    mode: Mode::Plain,
                    depth,
                    deepest: if depth > counted.deepest {
                        depth
                    } else {
                        counted.deepest
                    },
                }
            } else if byte == 0x7d && counted.depth > 0 {
                Counted { mode: Mode::Plain, depth: counted.depth - 1, deepest: counted.deepest }
            } else {
                counted
            }
        },
        Mode::Escaped => Counted {
            mode: Mode::Plain,
            depth: counted.depth,
            deepest: counted.deepest,
        },
        Mode::ClassOpened => {
            if byte == 0x21 || byte == 0x5e {
                Counted { mode: Mode::ClassNegated, depth: counted.depth, deepest: counted.deepest }
            } else {
                Counted { mode: Mode::ClassBody, depth: counted.depth, deepest: counted.deepest }
            }
        },
        Mode::ClassNegated => Counted {
            mode: Mode::ClassBody,
            depth: counted.depth,
            deepest: counted.deepest,
        },
        Mode::ClassBody => {
            if byte == 0x5d {
                Counted { mode: Mode::Plain, depth: counted.depth, deepest: counted.deepest }
            } else {
                counted
            }
        },
    }
}

/// Measures how deep the alternates of the glob `pattern` nest.
pub fn measure_depth(pattern: &str) -> (depth: usize)
    ensures
        depth == glob_depth(pattern@),
{
    let bytes = pattern.as_bytes();
    let mut with = Counted { mode: Mode::Plain, depth: 0, deepest: 0 };
    let mut without = Counted { mode: Mode::Plain, depth: 0, deepest: 0 };
    let mut i: usize = 0;
    assert(bytes@.take(0) =~= Seq::<u8>::empty());
    while i < bytes.len()
        invariant
            i <= bytes.len(),
            bytes@ == pattern.spec_bytes(),
            with@ == reading_of(bytes@.take(i as int), true),
            without@ == reading_of(bytes@.take(i as int), false),
            with.depth <= i,
            without.depth <= i,
        decreases bytes.len() - i,
    {
        let byte = bytes[i];
        assert(bytes@.take(i + 1).drop_last() =~= bytes@.take(i as int));
        assert(bytes@.take(i + 1).last() == byte);
        with = read_on(with, true, byte);
        without = read_on(without, false, byte);
        i = i + 1;
    }
    assert(bytes@.take(i as int) =~= bytes@);
    if with.deepest >= without.deepest {
        with.deepest
    } else {
        without.deepest
    }
}

/// Whether the glob `pattern` is within what the engine can take.
pub fn fits(pattern: &str) -> (within: bool)
    ensures
        within == glob_fits(pattern@),
{
    pattern.as_bytes().len() <= MAX_GLOB_BYTES && measure_depth(pattern) <= MAX_GLOB_DEPTH
}

} // verus!
