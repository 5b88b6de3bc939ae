use crate::responder::BlitzQuote;
use crate::store::Store;
use vstd::prelude::*;
use vstd::string::StringExecFns;

verus! {

/// Builds the fixed quote corpus: nine quotations about fast chess, in
/// this order, each with its author. Always succeeds; meant to run once
/// at startup, after which the store is shared read-only.
pub fn quote_corpus() -> (s: Store<BlitzQuote>)
    ensures
        s@.len() == 9,
        s@[0].quote@ == "Rapid and blitz chess is first of all for enjoyment."@,
        s@[0].author@ == "Magnus Carlsen"@,
        s@[1].quote@ == "Playing rapid chess, one can lose the habit of concentrating for several hours in serious chess. That is why, if a player has big aims, he should limit his rapid play in favour of serious chess."@,
        s@[1].author@ == "Vladimir Kramnik"@,
        s@[2].quote@ == "He who analyses blitz is stupid."@,
        s@[2].author@ == "Rashid Nezhmetdinov"@,
        s@[3].quote@ == "Blitz chess kills your ideas."@,
        s@[3].author@ == "Bobby Fischer"@,
        s@[4].quote@ == "To be honest, I consider [bullet chess] a bit moronic, and therefore I never play it."@,
        s@[4].author@ == "Vladimir Kramnik"@,
        s@[5].quote@ == "I play way too much blitz chess. It rots the brain just as surely as alcohol."@,
        s@[5].author@ == "Nigel Short"@,
        s@[6].quote@ == "Blitz is simply a waste of time."@,
        s@[6].author@ == "Vladimir Malakhov"@,
        s@[7].quote@ == "[Blitz] is just getting positions where you can move fast. I mean, it's not chess."@,
        s@[7].author@ == "Hikaru Nakamura"@,
        s@[8].quote@ == "Always sack the exchange!"@,
        s@[8].author@ == "Ben F6gold"@,
{
    let mut entries: Vec<BlitzQuote> = Vec::new();
    entries.push(BlitzQuote::new(
        "Rapid and blitz chess is first of all for enjoyment.",
        "Magnus Carlsen",
    ));
    entries.push(BlitzQuote::new(
        "Playing rapid chess, one can lose the habit of concentrating for several hours in serious chess. That is why, if a player has big aims, he should limit his rapid play in favour of serious chess.",
        "Vladimir Kramnik",
    ));
    entries.push(BlitzQuote::new("He who analyses blitz is stupid.", "Rashid Nezhmetdinov"));
    entries.push(BlitzQuote::new("Blitz chess kills your ideas.", "Bobby Fischer"));
    entries.push(BlitzQuote::new(
        "To be honest, I consider [bullet chess] a bit moronic, and therefore I never play it.",
        "Vladimir Kramnik",
    ));
    entries.push(BlitzQuote::new(
        "I play way too much blitz chess. It rots the brain just as surely as alcohol.",
        "Nigel Short",
    ));
    entries.push(BlitzQuote::new("Blitz is simply a waste of time.", "Vladimir Malakhov"));
    entries.push(BlitzQuote::new(
        "[Blitz] is just getting positions where you can move fast. I mean, it's not chess.",
        "Hikaru Nakamura",
    ));
    entries.push(BlitzQuote::new("Always sack the exchange!", "Ben F6gold"));
    Store::new(entries)
}

/// Builds the fixed reason corpus: four short reasons, in this order.
/// Always succeeds; meant to run once at startup.
pub fn reason_corpus() -> (s: Store<String>)
    ensures
        s@.len() == 4,
        s@[0]@ == "Why not?"@,
        s@[1]@ == "Sane defaults"@,
        s@[2]@ == "It is fun!"@,
        s@[3]@ == "cargo"@,
{
    let mut entries: Vec<String> = Vec::new();
    entries.push(String::from_str("Why not?"));
    entries.push(String::from_str("Sane defaults"));
    entries.push(String::from_str("It is fun!"));
    entries.push(String::from_str("cargo"));
    Store::new(entries)
}

} // verus!
