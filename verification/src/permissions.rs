//! The permissions of the chat platform that an answer names: which bits
//! of a permission set are set, and the name of each.

use vstd::prelude::*;

verus! {

/// Whether bit `b` of `bits` is set.
pub open spec fn bit_set(bits: u64, b: u32) -> bool {
    (bits >> b) & 1u64 == 1u64
}

/// The bits below `n` that are set in `bits`, lowest first.
pub open spec fn set_bits_below(bits: u64, n: nat) -> Seq<u32>
    decreases n,
{
    if n == 0 {
        Seq::empty()
    } else {
        let rest = set_bits_below(bits, (n - 1) as nat);
        if bit_set(bits, (n - 1) as u32) {
            rest.push((n - 1) as u32)
        } else {
            rest
        }
    }
}

/// The name of the permission at bit `bit`.
pub open spec fn permission_name_spec(bit: u32) -> Seq<char> {
    match bit {
        0 => "Create Invite"@,
        1 => "Kick Members"@,
        2 => "Ban Members"@,
        3 => "Administrator"@,
        4 => "Manage Channels"@,
        5 => "Manage Guild"@,
        6 => "Add Reactions"@,
        7 => "View Audit Log"@,
        8 => "Priority Speaker"@,
        9 => "Stream"@,
        10 => "View Channel"@,
        11 => "Send Messages"@,
        12 => "Send TTS Messages"@,
        13 => "Manage Messages"@,
        14 => "Embed Links"@,
        15 => "Attach Files"@,
        16 => "Read Message History"@,
        17 => "Mention Everyone"@,
        18 => "Use External Emojis"@,
        19 => "View Guild Insights"@,
        20 => "Connect"@,
        21 => "Speak"@,
        22 => "Mute Members"@,
        23 => "Deafen Members"@,
        24 => "Move Members"@,
        25 => "Use Voice Activity"@,
        26 => "Change Nickname"@,
        27 => "Manage Nicknames"@,
        28 => "Manage Roles"@,
        29 => "Manage Webhooks"@,
        30 => "Manage Guild Expressions"@,
        31 => "Use Application Commands"@,
        32 => "Request To Speak"@,
        33 => "Manage Events"@,
        34 => "Manage Threads"@,
        35 => "Create Public Threads"@,
        36 => "Create Private Threads"@,
        37 => "Use External Stickers"@,
        38 => "Send Messages In Threads"@,
        39 => "Use Embedded Activities"@,
        40 => "Moderate Members"@,
        41 => "View Creator Monetization Analytics"@,
        42 => "Use Soundboard"@,
        43 => "Create Guild Expressions"@,
        44 => "Create Events"@,
        45 => "Use External Sounds"@,
        46 => "Send Voice Messages"@,
        49 => "Send Polls"@,
        50 => "Use External Apps"@,
        _ => "Unknown"@,
    }
}

/// The name of the permission at bit `bit`; a bit that names no permission
/// is `Unknown`.
pub fn permission_name(bit: u32) -> (r: &'static str)
    ensures
        r@ == permission_name_spec(bit),
{
    match bit {
        0 => "Create Invite",
        1 => "Kick Members",
        2 => "Ban Members",
        3 => "Administrator",
        4 => "Manage Channels",
        5 => "Manage Guild",
        6 => "Add Reactions",
        7 => "View Audit Log",
        8 => "Priority Speaker",
        9 => "Stream",
        10 => "View Channel",
        11 => "Send Messages",
        12 => "Send TTS Messages",
        13 => "Manage Messages",
        14 => "Embed Links",
        15 => "Attach Files",
        16 => "Read Message History",
        17 => "Mention Everyone",
        18 => "Use External Emojis",
        19 => "View Guild Insights",
        20 => "Connect",
        21 => "Speak",
        22 => "Mute Members",
        23 => "Deafen Members",
        24 => "Move Members",
        25 => "Use Voice Activity",
        26 => "Change Nickname",
        27 => "Manage Nicknames",
        28 => "Manage Roles",
        29 => "Manage Webhooks",
        30 => "Manage Guild Expressions",
        31 => "Use Application Commands",
        32 => "Request To Speak",
        33 => "Manage Events",
        34 => "Manage Threads",
        35 => "Create Public Threads",
        36 => "Create Private Threads",
        37 => "Use External Stickers",
        38 => "Send Messages In Threads",
        39 => "Use Embedded Activities",
        40 => "Moderate Members",
        41 => "View Creator Monetization Analytics",
        42 => "Use Soundboard",
        43 => "Create Guild Expressions",
        44 => "Create Events",
        45 => "Use External Sounds",
        46 => "Send Voice Messages",
        49 => "Send Polls",
        50 => "Use External Apps",
        _ => "Unknown",
    }
}

/// The bits set in `bits`, lowest first.
pub fn set_bits(bits: u64) -> (r: Vec<u32>)
    ensures
        r@ == set_bits_below(bits, 64),
{
    let mut r: Vec<u32> = Vec::new();
    let mut b: u32 = 0;
    while b < 64
        invariant
            b <= 64,
            r@ == set_bits_below(bits, b as nat),
        decreases 64 - b,
    {
        if (bits >> b) & 1u64 == 1u64 {
            r.push(b);
        }
        b = b + 1;
    }
    r
}

/// The names of the permissions whose bits are set in `bits`, lowest bit
/// first.
pub fn permission_names(bits: u64) -> (r: Vec<&'static str>)
    ensures
        r@.len() == set_bits_below(bits, 64).len(),
        forall|i: int|
            0 <= i < r@.len() ==> r@[i]@ == permission_name_spec(
                #[trigger] set_bits_below(bits, 64)[i],
            ),
{
    let set = set_bits(bits);
    let mut r: Vec<&'static str> = Vec::new();
    let mut i: usize = 0;
    while i < set.len()
        invariant
            i <= set.len(),
            set@ == set_bits_below(bits, 64),
            r@.len() == i,
            forall|k: int| 0 <= k < i ==> r@[k]@ == permission_name_spec(#[trigger] set@[k]),
        decreases set.len() - i,
    {
        r.push(permission_name(set[i]));
        i = i + 1;
    }
    r
}

} // verus!
