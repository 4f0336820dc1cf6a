use vstd::prelude::*;

verus! {

/// Neutral asides shown when no personalised message applies.
pub open spec fn neutral_eggs() -> Seq<&'static str> {
    seq![
        "Reticulating splines...",
        "Defragmenting the recycle bin...",
        "Consulting the installation manual (1998 edition)...",
        "Polishing bits for a better finish...",
        "Asking the mainframe nicely...",
        "Counting to infinity, twice...",
        "Re-aligning the floppy drive heads...",
        "Warming up the vacuum tubes...",
    ]
}

/// Neutral asides shown when no personalised message applies.
pub fn easter_eggs() -> (r: Vec<&'static str>)
    ensures
        r@ == neutral_eggs(),
        r@.len() > 0,
{
    let r = vec![
        "Reticulating splines...",
        "Defragmenting the recycle bin...",
        "Consulting the installation manual (1998 edition)...",
        "Polishing bits for a better finish...",
        "Asking the mainframe nicely...",
        "Counting to infinity, twice...",
        "Re-aligning the floppy drive heads...",
        "Warming up the vacuum tubes...",
    ];
    assert(r@ =~= neutral_eggs());
    r
}

/// Neutral warnings shown when no personalised warning applies.
pub open spec fn neutral_warnings() -> Seq<&'static str> {
    seq![
        "WARNING: Deprecated package detected. Ignoring.",
        "WARNING: Checksum mismatch in optional component. Using cached copy.",
        "WARNING: Disk write speed lower than expected.",
        "WARNING: Legacy compatibility layer enabled.",
        "WARNING: Clock skew detected. Adjusting timestamps.",
        "WARNING: Mirror responded slowly. Retrying with smaller chunks.",
    ]
}

/// Neutral warnings shown when no personalised warning applies.
pub fn warnings() -> (r: Vec<&'static str>)
    ensures
        r@ == neutral_warnings(),
        r@.len() > 0,
{
    let r = vec![
        "WARNING: Deprecated package detected. Ignoring.",
        "WARNING: Checksum mismatch in optional component. Using cached copy.",
        "WARNING: Disk write speed lower than expected.",
        "WARNING: Legacy compatibility layer enabled.",
        "WARNING: Clock skew detected. Adjusting timestamps.",
        "WARNING: Mirror responded slowly. Retrying with smaller chunks.",
    ];
    assert(r@ =~= neutral_warnings());
    r
}

/// Connection hiccups announced before a simulated reconnect.
pub open spec fn retry_lines() -> Seq<&'static str> {
    seq![
        "Connection to mirror.oldsoft.org timed out. Retrying...",
        "Package server returned 503. Retrying...",
        "Checksum verification failed. Re-downloading...",
        "Lost connection to update server. Reconnecting...",
    ]
}

/// Connection hiccups announced before a simulated reconnect.
pub fn retry_messages() -> (r: Vec<&'static str>)
    ensures
        r@ == retry_lines(),
        r@.len() > 0,
{
    let r = vec![
        "Connection to mirror.oldsoft.org timed out. Retrying...",
        "Package server returned 503. Retrying...",
        "Checksum verification failed. Re-downloading...",
        "Lost connection to update server. Reconnecting...",
    ];
    assert(r@ =~= retry_lines());
    r
}

} // verus!
