//! Battery charge from the kernel's power-supply directory.
use vstd::prelude::*;
use crate::text::{chars_of, parse_u8, parse_u8_spec, seq_starts_with, starts_with, trim, trimmed};

verus! {

/// One entry of the power-supply directory: its name and, when the entry
/// has a readable `capacity` file, that file's text.
#[derive(Debug, Clone)]
pub struct PowerSupplyEntry {
    pub name: String,
    pub capacity: Option<String>,
}

/// The name and capacity text of an entry.
pub open spec fn entry_view(e: PowerSupplyEntry) -> (Seq<char>, Option<Seq<char>>) {
    (
        e.name@,
        match e.capacity {
            Some(c) => Some(c@),
            None => None,
        },
    )
}

/// The charge an entry reports: a battery (its name starts with `BAT`)
/// whose capacity text is, once trimmed, a number from 0 to 255; the number
/// is capped at 100.
pub open spec fn entry_level(name: Seq<char>, capacity: Option<Seq<char>>) -> Option<u8> {
    if seq_starts_with(name, "BAT"@) {
        match capacity {
            Some(c) => match parse_u8_spec(trim(c)) {
                Some(v) => Some(
                    if v > 100 {
                        100u8
                    } else {
                        v
                    },
                ),
                None => None,
            },
            None => None,
        }
    } else {
        None
    }
}

/// The charge of the first entry, in directory order, that reports one.
pub open spec fn battery_level(entries: Seq<PowerSupplyEntry>) -> Option<u8>
    decreases entries.len(),
{
    if entries.len() == 0 {
        None
    } else {
        match entry_level(entry_view(entries[0]).0, entry_view(entries[0]).1) {
            Some(v) => Some(v),
            None => battery_level(entries.drop_first()),
        }
    }
}

/// Reads the battery charge from a power-supply directory.
pub struct BatteryCollector {
    sys_path: String,
}

impl View for BatteryCollector {
    /// The directory it reads.
    type V = Seq<char>;

    closed spec fn view(&self) -> Seq<char> {
        self.sys_path@
    }
}

impl BatteryCollector {
    /// A collector that reads `/sys/class/power_supply`.
    pub fn new() -> (c: Self)
        ensures
            c@ == "/sys/class/power_supply"@,
    {
        BatteryCollector { sys_path: String::from_str("/sys/class/power_supply") }
    }

    /// A collector that reads the directory at `path`.
    pub fn with_path(path: &str) -> (c: Self)
        ensures
            c@ == path@,
    {
        BatteryCollector { sys_path: String::from_str(path) }
    }

    /// The directory this collector reads.
    pub fn sys_path(&self) -> (p: &str)
        ensures
            p@ == self@,
    {
        self.sys_path.as_str()
    }

    /// The battery charge in percent that the directory's entries report
    /// (`entries` in the order the directory lists them, empty when it
    /// cannot be read): that of the first battery with a readable numeric
    /// capacity, capped at 100.
    pub fn sample(&self, entries: &Vec<PowerSupplyEntry>) -> (r: Option<u8>)
        ensures
            r == battery_level(entries@),
    {
        let prefix = chars_of("BAT");
        let mut i: usize = 0;
        assert(entries@.skip(0) =~= entries@);
        while i < entries.len()
            invariant
                i <= entries.len(),
                prefix@ == "BAT"@,
                battery_level(entries@.skip(i as int)) == battery_level(entries@),
            decreases entries.len() - i,
        {
            assert(entries@.skip(i as int)[0] == entries@[i as int]);
            assert(entries@.skip(i as int).drop_first() =~= entries@.skip(i + 1));
            let entry = &entries[i];
            let name = chars_of(entry.name.as_str());
            if starts_with(&name, &prefix) {
                if let Some(content) = &entry.capacity {
                    let text = chars_of(content.as_str());
                    let value = trimmed(&text);
                    if let Some(level) = parse_u8(&value) {
                        return Some(
                            if level > 100 {
                                100
                            } else {
                                level
                            },
                        );
                    }
                }
            }
            i = i + 1;
        }
        None
    }
}

} // verus!
