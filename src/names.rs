//! Layer and extension names, held as their bytes without the terminating nul.
use vstd::prelude::*;

verus! {

/// The names of `list`, each as its bytes.
pub open spec fn views(list: Seq<Vec<u8>>) -> Seq<Seq<u8>> {
    list.map_values(|v: Vec<u8>| v@)
}

/// How many entries of `list` are `name`.
pub open spec fn occurrences(list: Seq<Seq<u8>>, name: Seq<u8>) -> nat
    decreases list.len(),
{
    if list.len() == 0 {
        0
    } else {
        occurrences(list.drop_last(), name) + if list.last() == name {
            1nat
        } else {
            0nat
        }
    }
}

/// A name that is not in a list occurs there nowhere.
pub proof fn lemma_absent_occurs_never(list: Seq<Seq<u8>>, name: Seq<u8>)
    requires
        !list.contains(name),
    ensures
        occurrences(list, name) == 0,
    decreases list.len(),
{
    if list.len() > 0 {
        let rest = list.drop_last();
        assert forall|i: int| 0 <= i < rest.len() implies rest[i] != name by {
            assert(list[i] == rest[i]);
        }
        lemma_absent_occurs_never(rest, name);
        assert(list[list.len() - 1] == list.last());
    }
}

/// Appending a name adds one to its count.
pub proof fn lemma_push_occurs_once_more(list: Seq<Seq<u8>>, name: Seq<u8>)
    ensures
        occurrences(list.push(name), name) == occurrences(list, name) + 1,
{
    assert(list.push(name).drop_last() =~= list);
}

/// Byte-wise equality of two names.
pub fn same_name(a: &Vec<u8>, b: &Vec<u8>) -> (r: bool)
    ensures
        r == (a@ == b@),
{
    if a.len() != b.len() {
        return false;
    }
    let mut i: usize = 0;
    while i < a.len()
        invariant
            a@.len() == b@.len(),
            0 <= i <= a@.len(),
            forall|j: int| 0 <= j < i ==> a@[j] == b@[j],
        decreases a@.len() - i,
    {
        if a[i] != b[i] {
            return false;
        }
        i = i + 1;
    }
    assert(a@ =~= b@);
    true
}

/// Whether `name` is among `list`.
pub fn contains_name(list: &Vec<Vec<u8>>, name: &Vec<u8>) -> (r: bool)
    ensures
        r == views(list@).contains(name@),
{
    let mut i: usize = 0;
    while i < list.len()
        invariant
            0 <= i <= list@.len(),
            forall|j: int| 0 <= j < i ==> (#[trigger] list@[j])@ != name@,
            views(list@).len() == list@.len(),
        decreases list@.len() - i,
    {
        if same_name(&list[i], name) {
            assert(views(list@)[i as int] == name@);
            return true;
        }
        i = i + 1;
    }
    assert forall|j: int| 0 <= j < list@.len() implies views(list@)[j] != name@ by {
        assert(views(list@)[j] == list@[j]@);
    }
    false
}

/// The bytes of `VK_EXT_debug_utils`.
pub open spec fn debug_utils_name() -> Seq<u8> {
    seq![
        86u8, 75, 95, 69, 88, 84, 95, 100, 101, 98, 117, 103, 95, 117,
        116, 105, 108, 115,
    ]
}

/// Relies on `vulkanalia::vk::EXT_DEBUG_UTILS_EXTENSION`: its `name` is built
/// from `b"VK_EXT_debug_utils"`, and `as_cstr` stops at the nul that follows.
#[verifier::external_body]
pub fn debug_utils_extension_name() -> (r: Vec<u8>)
    ensures
        r@ == debug_utils_name(),
{
    vulkanalia::vk::EXT_DEBUG_UTILS_EXTENSION.name.as_cstr().to_bytes().to_vec()
}

/// The bytes of `VK_LAYER_KHRONOS_validation`.
pub open spec fn khronos_validation_name() -> Seq<u8> {
    seq![
        86u8, 75, 95, 76, 65, 89, 69, 82, 95, 75, 72, 82, 79, 78,
        79, 83, 95, 118, 97, 108, 105, 100, 97, 116, 105, 111, 110,
    ]
}

/// The validation layer that diagnostics ask for by default.
pub fn khronos_validation_layer() -> (r: Vec<u8>)
    ensures
        r@ == khronos_validation_name(),
{
    let r: Vec<u8> = vec![
        86u8, 75, 95, 76, 65, 89, 69, 82, 95, 75, 72, 82, 79, 78,
        79, 83, 95, 118, 97, 108, 105, 100, 97, 116, 105, 111, 110,
    ];
    assert(r@ =~= khronos_validation_name());
    r
}

} // verus!
