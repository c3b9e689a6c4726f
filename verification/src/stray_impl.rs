use vstd::prelude::*;

verus! {

use vstd::string::StringExecFns;

/// The freedesktop icon name used when the tray backend takes a themed
/// system icon instead of a custom bitmap.
pub fn create_system_icon_name() -> (name: String)
    ensures
        name@ == "application-x-executable"@,
{
    String::from_str("application-x-executable")
}

} // verus!
