//! The choices made once while setting up the device: which physical device
//! and queue families to use, which instance extensions to enable, and whether
//! the requested validation layers are all there.
use vstd::prelude::*;

verus! {

/// What a queue family can do for the presentation loop.
#[derive(Clone, Copy, Debug, PartialEq, Eq, Structural)]
pub struct QueueFamilySupport {
    pub graphics: bool,
    pub present: bool,
}

/// The index of the first `true` entry of `s`, if any.
pub open spec fn first_accepted_spec(s: Seq<bool>) -> Option<int>
    decreases s.len(),
{
    if s.len() == 0 {
        None
    } else if s[0] {
        Some(0)
    } else {
        match first_accepted_spec(s.drop_first()) {
            Some(i) => Some(i + 1),
            None => None,
        }
    }
}

/// The queue families to create queues on: the first family with graphics
/// and the first family that can present, once where they are the same.
pub open spec fn queue_families_spec(families: Seq<QueueFamilySupport>) -> Option<Seq<u32>> {
    let graphics = first_accepted_spec(families.map_values(|f: QueueFamilySupport| f.graphics));
    let present = first_accepted_spec(families.map_values(|f: QueueFamilySupport| f.present));
    match (graphics, present) {
        (Some(g), Some(p)) => Some(
            if g == p {
                seq![g as u32]
            } else {
                seq![g as u32, p as u32]
            },
        ),
        _ => None,
    }
}

/// The number of entries of `available` that `requested` names.
pub open spec fn count_requested(available: Seq<String>, requested: Seq<String>) -> nat
    decreases available.len(),
{
    if available.len() == 0 {
        0
    } else {
        count_requested(available.drop_last(), requested) + if exists|j: int|
            0 <= j < requested.len() && requested[j]@ == available.last()@ {
            1nat
        } else {
            0nat
        }
    }
}

/// `names` with `name` added at the end unless some entry already equals it.
pub open spec fn with_name(names: Seq<String>, name: String) -> Seq<String> {
    if exists|j: int| 0 <= j < names.len() && names[j]@ == name@ {
        names
    } else {
        names.push(name)
    }
}

proof fn lemma_first_accepted_step(s: Seq<bool>, i: int)
    requires
        0 <= i < s.len(),
        forall|j: int| 0 <= j < i ==> !s[j],
    ensures
        first_accepted_spec(s) == if s[i] {
            Some(i)
        } else {
            match first_accepted_spec(s.subrange(i + 1, s.len() as int)) {
                Some(k) => Some(k + i + 1),
                None => None,
            }
        },
    decreases i,
{
    if i > 0 {
        let t = s.drop_first();
        assert(t.subrange(i, t.len() as int) =~= s.subrange(i + 1, s.len() as int));
        lemma_first_accepted_step(t, i - 1);
    }
}

/// The index of the first accepted entry.
pub fn first_accepted(accepted: &Vec<bool>) -> (r: Option<usize>)
    ensures
        r matches Some(i) ==> first_accepted_spec(accepted@) == Some(i as int),
        r is None ==> first_accepted_spec(accepted@) is None,
{
    let mut i: usize = 0;
    while i < accepted.len()
        invariant
            0 <= i <= accepted@.len(),
            forall|j: int| 0 <= j < i ==> !accepted@[j],
        decreases accepted@.len() - i,
    {
        proof {
            lemma_first_accepted_step(accepted@, i as int);
        }
        if accepted[i] {
            return Some(i);
        }
        i = i + 1;
    }
    proof {
        lemma_none_accepted(accepted@);
    }
    None
}

proof fn lemma_none_accepted(s: Seq<bool>)
    requires
        forall|j: int| 0 <= j < s.len() ==> !s[j],
    ensures
        first_accepted_spec(s) is None,
    decreases s.len(),
{
    if s.len() > 0 {
        let t = s.drop_first();
        assert forall|j: int| 0 <= j < t.len() implies !t[j] by {
            assert(t[j] == s[j + 1]);
        }
        lemma_none_accepted(t);
    }
}

/// The queue families to create queues on, one entry per family in `families`.
pub fn choose_queue_families(families: &Vec<QueueFamilySupport>) -> (r: Option<Vec<u32>>)
    requires
        families@.len() <= u32::MAX,
    ensures
        match queue_families_spec(families@) {
            Some(q) => r matches Some(v) && v@ == q,
            None => r is None,
        },
{
    let mut graphics: Vec<bool> = Vec::new();
    let mut present: Vec<bool> = Vec::new();
    let mut i: usize = 0;
    while i < families.len()
        invariant
            0 <= i <= families@.len(),
            graphics@ =~= families@.subrange(0, i as int).map_values(
                |f: QueueFamilySupport| f.graphics,
            ),
            present@ =~= families@.subrange(0, i as int).map_values(
                |f: QueueFamilySupport| f.present,
            ),
        decreases families@.len() - i,
    {
        graphics.push(families[i].graphics);
        present.push(families[i].present);
        i = i + 1;
        assert(graphics@ =~= families@.subrange(0, i as int).map_values(
            |f: QueueFamilySupport| f.graphics,
        ));
        assert(present@ =~= families@.subrange(0, i as int).map_values(
            |f: QueueFamilySupport| f.present,
        ));
    }
    assert(families@.subrange(0, families@.len() as int) =~= families@);
    let g = match first_accepted(&graphics) {
        Some(g) => g,
        None => return None,
    };
    let p = match first_accepted(&present) {
        Some(p) => p,
        None => return None,
    };
    proof {
        first_accepted_in_range(graphics@);
        first_accepted_in_range(present@);
    }
    if g == p {
        let v = vec![g as u32];
        assert(v@ =~= seq![g as u32]);
        Some(v)
    } else {
        let v = vec![g as u32, p as u32];
        assert(v@ =~= seq![g as u32, p as u32]);
        Some(v)
    }
}

proof fn first_accepted_in_range(s: Seq<bool>)
    ensures
        first_accepted_spec(s) matches Some(i) ==> 0 <= i < s.len(),
    decreases s.len(),
{
    if s.len() > 0 {
        first_accepted_in_range(s.drop_first());
    }
}

fn names_contain(names: &Vec<String>, name: &String) -> (r: bool)
    ensures
        r == exists|j: int| 0 <= j < names@.len() && names@[j]@ == name@,
{
    let mut i: usize = 0;
    while i < names.len()
        invariant
            0 <= i <= names@.len(),
            forall|j: int| 0 <= j < i ==> names@[j]@ != name@,
        decreases names@.len() - i,
    {
        if names[i] == *name {
            return true;
        }
        i = i + 1;
    }
    false
}

/// The instance extensions to enable: those the window system requires, then
/// those the program asks for, then `always` unless it is already listed.
pub fn merge_extension_names(
    required: Vec<String>,
    requested: &Option<Vec<String>>,
    always: String,
) -> (r: Vec<String>)
    ensures
        r@ == with_name(
            required@ + match requested {
                Some(v) => v@,
                None => Seq::<String>::empty(),
            },
            always,
        ),
{
    let mut out = required;
    let ghost base = out@;
    if let Some(extra) = requested {
        let mut i: usize = 0;
        while i < extra.len()
            invariant
                0 <= i <= extra@.len(),
                out@ =~= base + extra@.subrange(0, i as int),
            decreases extra@.len() - i,
        {
            out.push(extra[i].clone());
            i = i + 1;
            assert(out@ =~= base + extra@.subrange(0, i as int));
        }
        assert(extra@.subrange(0, extra@.len() as int) =~= extra@);
    } else {
        assert(out@ =~= base + Seq::<String>::empty());
    }
    if !names_contain(&out, &always) {
        out.push(always);
    }
    out
}

/// Whether the requested validation layers are all available: the number of
/// available layers that are requested reaches the number requested.
pub fn validation_layers_available(requested: &Vec<String>, available: &Vec<String>) -> (r: bool)
    ensures
        r == (count_requested(available@, requested@) >= requested@.len()),
{
    let mut count: usize = 0;
    let mut i: usize = 0;
    while i < available.len()
        invariant
            0 <= i <= available@.len(),
            count == count_requested(available@.subrange(0, i as int), requested@),
            count <= i,
        decreases available@.len() - i,
    {
        let found = names_contain(requested, &available[i]);
        proof {
            let s = available@.subrange(0, i as int + 1);
            assert(s.drop_last() =~= available@.subrange(0, i as int));
            assert(s.last() == available@[i as int]);
        }
        if found {
            count = count + 1;
        }
        i = i + 1;
    }
    assert(available@.subrange(0, available@.len() as int) =~= available@);
    count >= requested.len()
}

} // verus!
