//! Nearby devices: the decision after a device inquiry.

use vstd::prelude::*;

use crate::outcome::{InvocationError, InvocationErrorKind};
use crate::text::{push_unique, spec_dedup, spec_insert_unique};

verus! {

/// The decision after a device inquiry: an inquiry that yielded no
/// device list at all is a failure; otherwise the reported names are
/// collapsed into a distinct set, in first-occurrence order.
pub fn get_nearby_bluetooth(found: Option<Vec<String>>) -> (r: Result<Vec<String>, InvocationError>)
    ensures
        match r {
            Ok(names) => (match found {
                Some(ds) => names@.map_values(|s: String| s@) == spec_dedup(
                    ds@.map_values(|s: String| s@),
                ),
                None => false,
            }),
            Err(e) => found is None && e.kind == InvocationErrorKind::NativeCallFailed,
        },
{
    let ds = match found {
        Some(ds) => ds,
        None => {
            return Err(
                InvocationError::new(
                    InvocationErrorKind::NativeCallFailed,
                    String::from_str("device inquiry yielded no device list"),
                ),
            );
        },
    };
    let ghost views = ds@.map_values(|s: String| s@);
    let mut names: Vec<String> = Vec::new();
    let mut i: usize = 0;
    proof {
        assert(views.take(0) =~= Seq::<Seq<char>>::empty());
        assert(names@.map_values(|s: String| s@) =~= Seq::<Seq<char>>::empty());
    }
    while i < ds.len()
        invariant
            0 <= i <= ds@.len(),
            views == ds@.map_values(|s: String| s@),
            names@.map_values(|s: String| s@) == spec_dedup(views.take(i as int)),
        decreases ds@.len() - i,
    {
        proof {
            assert(views.take(i + 1).drop_last() =~= views.take(i as int));
            assert(views.take(i + 1).last() == views[i as int]);
            assert(views[i as int] == ds@[i as int]@);
        }
        push_unique(&mut names, ds[i].clone());
        proof {
            assert(spec_dedup(views.take(i + 1)) == spec_insert_unique(
                spec_dedup(views.take(i as int)),
                views[i as int],
            ));
        }
        i = i + 1;
    }
    proof {
        assert(views.take(i as int) =~= views);
    }
    Ok(names)
}

} // verus!
