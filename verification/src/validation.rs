use crate::extensions::{
    all_available, join_names, lemma_missing_none, missing_line, missing_names,
};
use vstd::prelude::*;

verus! {

/// The name of the validation layer.
pub open spec fn validation_layer() -> Seq<char> {
    "VK_LAYER_KHRONOS_validation"@
}

/// The layers that validation needs; none without validation.
pub open spec fn required_layers(validation: bool) -> Seq<Seq<char>> {
    if validation {
        seq![validation_layer()]
    } else {
        Seq::empty()
    }
}

/// The names of the layers to enable.
pub fn get_validation_layer_names(validation: bool) -> (r: Vec<String>)
    ensures
        r.deep_view() == required_layers(validation),
{
    let mut layers: Vec<String> = Vec::new();
    if validation {
        layers.push("VK_LAYER_KHRONOS_validation".to_owned());
    }
    layers
}

/// Checks that the layers which validation needs are available. Where
/// some are not, the error is the line of their names.
pub fn check_validation_layer_support(available: &Vec<String>, validation: bool) -> (r: Result<
    (),
    String,
>)
    ensures
        r is Ok <==> all_available(available.deep_view(), required_layers(validation)),
        r is Err ==> r->Err_0@ == join_names(
            missing_names(available.deep_view(), required_layers(validation)),
        ),
        !validation ==> r is Ok,
{
    let required = get_validation_layer_names(validation);
    let (missing, line) = missing_line(available, &required);
    proof {
        lemma_missing_none(available.deep_view(), required.deep_view());
    }
    if missing == 0 {
        Ok(())
    } else {
        Err(line)
    }
}

} // verus!
