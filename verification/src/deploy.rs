use vstd::prelude::*;

verus! {

/// The error when a deployment is asked for without a destination.
pub open spec fn missing_destination_message() -> Seq<char> {
    "No deployment destination specified, provide one with --deploy-destination"@
}

/// Decides a deployment of the built site: the destination to synchronize
/// the build directory to, or the error where none is configured. (The
/// synchronization itself is run by the caller.)
pub fn deploy(deploy_destination: &Option<String>) -> (plan: Result<String, String>)
    ensures
        match *deploy_destination {
            Some(destination) => plan matches Ok(d) && d@ == destination@,
            None => plan matches Err(message) && message@ == missing_destination_message(),
        },
{
    match deploy_destination {
        Some(destination) => Ok(destination.clone()),
        None => Err(String::from_str("No deployment destination specified, provide one with --deploy-destination")),
    }
}

} // verus!
