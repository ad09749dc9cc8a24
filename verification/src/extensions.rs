use crate::driver::{
    debug_utils_extension, debug_utils_extension_name, swapchain_extension,
    swapchain_extension_name,
};
use vstd::prelude::*;
use vstd::string::StringExecFns;

verus! {

/// The names of `required` that `available` lacks, in the order of `required`.
pub open spec fn missing_names(available: Seq<Seq<char>>, required: Seq<Seq<char>>) -> Seq<
    Seq<char>,
> {
    required.filter(|name: Seq<char>| !available.contains(name))
}

/// The names in one line, a comma and a space between every two of them.
pub open spec fn join_names(names: Seq<Seq<char>>) -> Seq<char>
    decreases names.len(),
{
    if names.len() == 0 {
        Seq::empty()
    } else if names.len() == 1 {
        names[0]
    } else {
        join_names(names.drop_last()) + ", "@ + names.last()
    }
}

/// Every name of `required` is among `available`.
pub open spec fn all_available(available: Seq<Seq<char>>, required: Seq<Seq<char>>) -> bool {
    forall|i: int| 0 <= i < required.len() ==> available.contains(#[trigger] required[i])
}

/// Nothing is missing exactly when every required name is available.
pub proof fn lemma_missing_none(available: Seq<Seq<char>>, required: Seq<Seq<char>>)
    ensures
        missing_names(available, required).len() == 0 <==> all_available(available, required),
    decreases required.len(),
{
    reveal(Seq::filter);
    if required.len() > 0 {
        let front = required.drop_last();
        lemma_missing_none(available, front);
        if missing_names(available, required).len() == 0 {
            assert forall|i: int| 0 <= i < required.len() implies available.contains(
                #[trigger] required[i],
            ) by {
                if i < front.len() {
                    assert(available.contains(front[i]));
                }
            }
        }
    }
}

/// Whether `name` is among `names`.
pub fn contains_name(names: &Vec<String>, name: &String) -> (r: bool)
    ensures
        r == names.deep_view().contains(name@),
{
    let mut i: usize = 0;
    while i < names.len()
        invariant
            i <= names@.len(),
            forall|j: int| 0 <= j < i ==> names@[j]@ != name@,
        decreases names@.len() - i,
    {
        if names[i] == *name {
            assert(names.deep_view()[i as int] == name@);
            return true;
        }
        i += 1;
    }
    false
}

/// How many names of `required` `available` lacks, and the line of
/// those names.
pub fn missing_line(available: &Vec<String>, required: &Vec<String>) -> (r: (usize, String))
    ensures
        r.0 == missing_names(available.deep_view(), required.deep_view()).len(),
        r.1@ == join_names(missing_names(available.deep_view(), required.deep_view())),
{
    let ghost have = available.deep_view();
    let ghost need = required.deep_view();
    let mut line = String::new();
    let mut missing: usize = 0;
    let mut i: usize = 0;
    proof {
        reveal(Seq::filter);
    }
    while i < required.len()
        invariant
            i <= required@.len(),
            have == available.deep_view(),
            need == required.deep_view(),
            missing <= i,
            missing == missing_names(have, need.take(i as int)).len(),
            line@ == join_names(missing_names(have, need.take(i as int))),
        decreases required@.len() - i,
    {
        let found = contains_name(available, &required[i]);
        let ghost before = missing_names(have, need.take(i as int));
        proof {
            reveal(Seq::filter);
            let next = need.take(i + 1);
            assert(next.drop_last() =~= need.take(i as int));
            assert(missing_names(have, next) == if found {
                before
            } else {
                before.push(next.last())
            });
            assert(before.push(next.last()).drop_last() =~= before);
        }
        if !found {
            if missing > 0 {
                line.append(", ");
            }
            line.append(required[i].as_str());
            missing += 1;
        }
        i += 1;
    }
    assert(need.take(i as int) =~= need);
    (missing, line)
}

/// Checks that every required instance extension is available. Where
/// some are not, the error is the line of their names, in the order in
/// which they are required.
pub fn check_required_extensions(available: &Vec<String>, required: &Vec<String>) -> (r: Result<
    (),
    String,
>)
    ensures
        r is Ok <==> all_available(available.deep_view(), required.deep_view()),
        r is Err ==> r->Err_0@ == join_names(
            missing_names(available.deep_view(), required.deep_view()),
        ),
{
    let (missing, line) = missing_line(available, required);
    proof {
        lemma_missing_none(available.deep_view(), required.deep_view());
    }
    if missing == 0 {
        Ok(())
    } else {
        Err(line)
    }
}

/// The instance extensions to ask for: those that the window needs and,
/// with validation, the one that gives debug messengers.
pub fn get_required_extensions(window_extensions: Vec<String>, validation: bool) -> (r: Vec<
    String,
>)
    ensures
        r.deep_view() == if validation {
            window_extensions.deep_view().push(debug_utils_extension())
        } else {
            window_extensions.deep_view()
        },
{
    let mut extensions = window_extensions;
    if validation {
        let name = debug_utils_extension_name();
        extensions.push(name);
    }
    extensions
}

/// The device extensions that a device must have: the one for swapchains.
pub fn get_required_device_extensions() -> (r: Vec<String>)
    ensures
        r.deep_view() == seq![swapchain_extension()],
{
    let mut extensions: Vec<String> = Vec::new();
    extensions.push(swapchain_extension_name());
    extensions
}

/// Whether a device with these extensions has every required one.
pub fn check_device_extension_support(available: &Vec<String>) -> (r: bool)
    ensures
        r == available.deep_view().contains(swapchain_extension()),
{
    let required_extensions = get_required_device_extensions();
    let mut i: usize = 0;
    while i < required_extensions.len()
        invariant
            i <= required_extensions@.len(),
            required_extensions.deep_view() == seq![swapchain_extension()],
            i > 0 ==> available.deep_view().contains(swapchain_extension()),
        decreases required_extensions@.len() - i,
    {
        let found = contains_name(available, &required_extensions[i]);
        assert(required_extensions.deep_view().len() == 1);
        assert(seq![swapchain_extension()][0] == swapchain_extension());
        if !found {
            return false;
        }
        i += 1;
    }
    assert(required_extensions.deep_view().len() == 1);
    true
}

} // verus!
