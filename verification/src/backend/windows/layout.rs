//! Choosing the Windows input locale for a configured layout identifier.
//!
//! An input locale is per thread on Windows, so the binary reads and changes the
//! locale of the foreground window's thread. What is decided here is WHICH HKL
//! stands for an identifier: a loaded HKL whose LANGID matches is preferred —
//! Chinese is a TSF text service, not a keyboard layout, so
//! `LoadKeyboardLayoutW("00000804")` looks for a KLID that does not exist, while
//! the loaded list holds `0x08040804` — and only when none matches is loading by
//! KLID tried.
use vstd::prelude::*;
use crate::backend::hkl::{format_langid, langid_from_id, langid_of, spec_langid, spec_langid_of_id, spec_layout_id};
use crate::doctor::{join, seq_join, views};
use crate::text::{owned, push_str};

verus! {

/// How to reach a layout identifier.
#[derive(Debug, PartialEq, Eq, Structural)]
pub enum LayoutChoice {
    /// Activate this HKL, which is already loaded.
    Loaded(usize),
    /// No loaded HKL has the LANGID: try loading the layout by its KLID.
    LoadByKlid,
}

/// The error for an identifier that is not hexadecimal.
pub open spec fn spec_not_hex_msg(id: Seq<char>) -> Seq<char> {
    "định danh layout không phải hex: "@ + id
}

/// `i` is the first position of `loaded` whose LANGID is `want`.
pub open spec fn first_with_langid(loaded: Seq<usize>, want: nat, i: int) -> bool {
    &&& 0 <= i < loaded.len()
    &&& spec_langid(loaded[i] as nat) == want
    &&& forall|j: int| 0 <= j < i ==> spec_langid(#[trigger] loaded[j] as nat) != want
}

/// Picks the HKL for `id` among the `loaded` ones: the first whose LANGID is the
/// one `id` selects; `LoadByKlid` when none has it; an error when `id` is not
/// hexadecimal.
pub fn layout_choice(id: &str, loaded: &[usize]) -> (r: Result<LayoutChoice, String>)
    ensures
        r is Err <==> spec_langid_of_id(id@) is None,
        r matches Err(e) ==> e@ == spec_not_hex_msg(id@),
        r matches Ok(LayoutChoice::Loaded(h)) ==> exists|i: int|
            first_with_langid(loaded@, spec_langid_of_id(id@).unwrap(), i) && #[trigger] loaded@[i] == h,
        r matches Ok(LayoutChoice::LoadByKlid) ==> forall|j: int|
            0 <= j < loaded@.len() ==> spec_langid(#[trigger] loaded@[j] as nat) != spec_langid_of_id(
                id@,
            ).unwrap(),
{
    let want = match langid_from_id(id) {
        Some(w) => w,
        None => {
            let mut m = owned("định danh layout không phải hex: ");
            push_str(&mut m, id);
            return Err(m);
        },
    };
    let mut i: usize = 0;
    while i < loaded.len()
        invariant
            i <= loaded@.len(),
            spec_langid_of_id(id@) == Some(want as nat),
            forall|j: int| 0 <= j < i ==> spec_langid(#[trigger] loaded@[j] as nat) != want,
        decreases loaded.len() - i,
    {
        if langid_of(loaded[i]) == want {
            assert(first_with_langid(loaded@, want as nat, i as int));
            return Ok(LayoutChoice::Loaded(loaded[i]));
        }
        i = i + 1;
    }
    Ok(LayoutChoice::LoadByKlid)
}

/// The loaded layouts as `{:?}` prints a list of identifiers: `["0409", "0804"]`.
/// Identifiers are hexadecimal digits, so nothing in them needs escaping.
pub open spec fn spec_loaded_list(loaded: Seq<usize>) -> Seq<char> {
    "["@ + seq_join(
        Seq::new(loaded.len(), |i: int| "\""@ + spec_layout_id(loaded[i] as nat) + "\""@),
        ", "@,
    ) + "]"@
}

/// The error when no HKL could be found or loaded for `id`.
pub open spec fn spec_layout_not_found_msg(id: Seq<char>, loaded: Seq<usize>) -> Seq<char> {
    "không tìm thấy layout "@ + id
        + " — đã thêm nó trong Settings > Time & language > Language & region chưa? (các layout đang nạp: "@
        + spec_loaded_list(loaded) + ")"@
}

/// The error when `id` is neither loaded nor loadable, naming what IS loaded.
pub fn layout_not_found_msg(id: &str, loaded: &[usize]) -> (s: String)
    ensures
        s@ == spec_layout_not_found_msg(id@, loaded@),
{
    let ghost quoted = Seq::new(
        loaded@.len(),
        |i: int| "\""@ + spec_layout_id(loaded@[i] as nat) + "\""@,
    );
    let mut items: Vec<String> = Vec::new();
    let mut i: usize = 0;
    while i < loaded.len()
        invariant
            i <= loaded@.len(),
            items@.len() == i,
            quoted.len() == loaded@.len(),
            forall|j: int| 0 <= j < i ==> (#[trigger] items@[j])@ == quoted[j],
            forall|j: int|
                0 <= j < loaded@.len() ==> #[trigger] quoted[j] == "\""@ + spec_layout_id(loaded@[j] as nat) + "\""@,
        decreases loaded.len() - i,
    {
        let mut q = owned("\"");
        let l = format_langid(loaded[i]);
        push_str(&mut q, l.as_str());
        push_str(&mut q, "\"");
        items.push(q);
        i = i + 1;
    }
    assert(views(items@) =~= quoted);
    let list = join(items.as_slice(), ", ");
    let mut s = owned("không tìm thấy layout ");
    push_str(&mut s, id);
    push_str(
        &mut s,
        " — đã thêm nó trong Settings > Time & language > Language & region chưa? (các layout đang nạp: ",
    );
    push_str(&mut s, "[");
    push_str(&mut s, list.as_str());
    push_str(&mut s, "]");
    push_str(&mut s, ")");
    assert(s@ =~= spec_layout_not_found_msg(id@, loaded@));
    s
}

} // verus!
