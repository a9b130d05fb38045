//! The process widget: the busiest process and its label.
use vstd::prelude::*;

use crate::data::ProcessInfo;
use crate::text::{decimal, push_decimal, push_str};

verus! {

/// What the widget shows where processes cannot be listed: "N/A" at 0%.
pub fn get_top_process() -> (p: ProcessInfo)
    ensures
        p.top_process@ == "N/A"@,
        p.cpu_usage == 0,
{
    ProcessInfo { top_process: String::from_str("N/A"), cpu_usage: 0 }
}

/// One listed process: its name, a key that orders processes by CPU share,
/// and that share in whole percent.
pub struct ProcessSample {
    pub name: String,
    pub load_key: u32,
    pub cpu_percent: u32,
}

/// `s` without trailing NUL characters.
pub open spec fn trim_nuls(s: Seq<char>) -> Seq<char>
    decreases s.len(),
{
    if s.len() > 0 && s.last() == '\0' {
        trim_nuls(s.drop_last())
    } else {
        s
    }
}

/// The name shown for a process: without trailing NULs, "Unknown" when nothing is left.
pub open spec fn shown_process_name(name: Seq<char>) -> Seq<char> {
    if trim_nuls(name).len() == 0 {
        "Unknown"@
    } else {
        trim_nuls(name)
    }
}

/// `i` is the first of the samples with the highest key.
pub open spec fn is_busiest(keys: Seq<u32>, i: int) -> bool {
    &&& 0 <= i < keys.len()
    &&& forall|j: int| 0 <= j < keys.len() ==> keys[j] <= keys[i]
    &&& forall|j: int| 0 <= j < i ==> keys[j] < keys[i]
}

pub open spec fn sample_keys(s: Seq<ProcessSample>) -> Seq<u32> {
    s.map_values(|p: ProcessSample| p.load_key)
}

/// The label of the busiest process: "name share%", or "None 0%" with no process.
pub open spec fn top_label(name: Option<Seq<char>>, cpu: nat) -> Seq<char> {
    match name {
        Some(n) => shown_process_name(n) + seq![' '] + decimal(cpu) + seq!['%'],
        None => "None"@ + seq![' '] + decimal(0) + seq!['%'],
    }
}

fn busiest(samples: &Vec<ProcessSample>) -> (i: usize)
    requires
        samples@.len() > 0,
    ensures
        is_busiest(sample_keys(samples@), i as int),
{
    let mut best: usize = 0;
    let mut k: usize = 1;
    while k < samples.len()
        invariant
            0 <= best < k <= samples@.len(),
            forall|j: int| 0 <= j < k ==> samples@[j].load_key <= samples@[best as int].load_key,
            forall|j: int| 0 <= j < best ==> samples@[j].load_key < samples@[best as int].load_key,
        decreases samples@.len() - k,
    {
        if samples[k].load_key > samples[best].load_key {
            best = k;
        }
        k = k + 1;
    }
    best
}

fn trimmed_name(name: &str) -> (r: String)
    ensures
        r@ == shown_process_name(name@),
{
    let v = crate::text::chars_of(name);
    let mut end = v.len();
    assert(v@.take(end as int) =~= v@);
    while end > 0 && v[end - 1] == '\0'
        invariant
            0 <= end <= v@.len(),
            trim_nuls(v@) == trim_nuls(v@.take(end as int)),
        decreases end,
    {
        assert(v@.take(end as int).drop_last() =~= v@.take(end - 1));
        end = end - 1;
    }
    assert(trim_nuls(v@.take(end as int)) == v@.take(end as int));
    if end == 0 {
        String::from_str("Unknown")
    } else {
        crate::text::string_of(&v, 0, end)
    }
}

/// The busiest of the listed processes: the first with the highest load
/// key, named without trailing NULs ("Unknown" when nothing is left), with
/// its share; "None" at 0% when the list is empty.
pub fn top_process(samples: &Vec<ProcessSample>) -> (p: ProcessInfo)
    ensures
        samples@.len() == 0 ==> p.cpu_usage == 0 && p.top_process@ == top_label(None, 0),
        samples@.len() > 0 ==> exists|i: int|
            #![trigger samples@[i]]
            is_busiest(sample_keys(samples@), i) && p.cpu_usage == samples@[i].cpu_percent
                && p.top_process@ == top_label(Some(samples@[i].name@), samples@[i].cpu_percent as nat),
{
    if samples.len() == 0 {
        let mut label = String::from_str("None");
        crate::text::push_char(&mut label, ' ');
        push_decimal(&mut label, 0);
        crate::text::push_char(&mut label, '%');
        return ProcessInfo { top_process: label, cpu_usage: 0 };
    }
    let i = busiest(samples);
    let mut label = trimmed_name(samples[i].name.as_str());
    crate::text::push_char(&mut label, ' ');
    push_decimal(&mut label, samples[i].cpu_percent as u64);
    crate::text::push_char(&mut label, '%');
    let p = ProcessInfo { top_process: label, cpu_usage: samples[i].cpu_percent };
    assert(is_busiest(sample_keys(samples@), i as int) && p.cpu_usage == samples@[i as int].cpu_percent
        && p.top_process@ == top_label(Some(samples@[i as int].name@), samples@[i as int].cpu_percent as nat));
    p
}

} // verus!
