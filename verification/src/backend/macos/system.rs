//! No external input method: Vietnamese comes from the macOS input source
//! itself. The IME lever is always off; switching modes happens entirely at the
//! layout level, and any external app still running is only worth a warning.
use vstd::prelude::*;
use crate::doctor::{Finding, Level, fview, finding};
use crate::text::{owned, push_str};

verus! {

/// The finding about an external input method running beside `system`.
pub open spec fn spec_conflict_finding(app_running: bool, app_name: Seq<char>) -> (Level, Seq<char>) {
    if app_running {
        (
            Level::Warn,
            app_name + " vẫn đang chạy nhưng backend = system — hai bộ gõ chồng nhau sẽ ăn phím của nhau; tắt "@
                + app_name + " (và bỏ nó khỏi Login Items) hoặc đổi backend"@,
        )
    } else {
        (Level::Good, "không có bộ gõ ngoài nào chạy chồng"@)
    }
}

/// Warns when the named external input method still runs beside the system
/// one — two input methods would eat each other's keys.
pub fn conflict_finding(app_running: bool, app_name: &str) -> (f: Finding)
    ensures
        fview(f) == spec_conflict_finding(app_running, app_name@),
{
    if app_running {
        let mut m = owned(app_name);
        push_str(&mut m, " vẫn đang chạy nhưng backend = system — hai bộ gõ chồng nhau sẽ ăn phím của nhau; tắt ");
        push_str(&mut m, app_name);
        push_str(&mut m, " (và bỏ nó khỏi Login Items) hoặc đổi backend");
        finding(Level::Warn, m)
    } else {
        finding(Level::Good, owned("không có bộ gõ ngoài nào chạy chồng"))
    }
}

} // verus!
