//! Checks that the platforms without multi-queue or layer-2 support make.
use vstd::prelude::*;

use crate::configuration::{Configuration, ConfigurationView, Layer};
use crate::error::{Error, Result};

verus! {

/// What a platform that only offers single-queue layer-3 devices says of a
/// configuration: the layer must be 3, and exactly one queue (the default) asked for.
pub open spec fn single_l3_check(v: ConfigurationView) -> Result<()> {
    if v.layer != Layer::L3 {
        Err(Error::UnsupportedLayer)
    } else if v.queues matches Some(n) && n != 1 {
        Err(Error::InvalidQueuesNumber)
    } else {
        Ok(())
    }
}

/// Refuses what a platform offering only single-queue layer-3 devices cannot create.
pub fn ensure_single_l3(config: &Configuration) -> (r: Result<()>)
    ensures
        r is Ok <==> single_l3_check(config@) is Ok,
        r matches Err(Error::UnsupportedLayer) <==> single_l3_check(config@) matches Err(
            Error::UnsupportedLayer,
        ),
        r matches Err(Error::InvalidQueuesNumber) <==> single_l3_check(config@) matches Err(
            Error::InvalidQueuesNumber,
        ),
{
    if config.get_layer() != Layer::L3 {
        return Err(Error::UnsupportedLayer);
    }
    let queue_number = match config.get_queues() {
        Some(n) => n,
        None => 1,
    };
    if queue_number != 1 {
        return Err(Error::InvalidQueuesNumber);
    }
    Ok(())
}

} // verus!
