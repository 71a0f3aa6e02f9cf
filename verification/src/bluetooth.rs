//! Pure helpers around the host Bluetooth stack: the RFCOMM device node
//! naming. Probing the filesystem and talking to the stack happen
//! outside the library; the probe results are handed in as plain values.

use vstd::prelude::*;

verus! {

/// A connected Bluetooth device as the host stack reports it.
#[derive(Debug, Clone)]
pub struct BluetoothDevice {
    pub address: String,
    pub name: String,
}

/// The device node path for an RFCOMM name: the name itself when it
/// already starts with "/dev/", otherwise the name under "/dev/".
pub open spec fn spec_rfcomm_path(name: Seq<char>) -> Seq<char> {
    if name.len() >= 5 && name.subrange(0, 5) == "/dev/"@ {
        name
    } else {
        "/dev/"@ + name
    }
}

/// Resolves an RFCOMM name to its device node path.
pub fn rfcomm_path(name: &str) -> (path: String)
    ensures
        path@ == spec_rfcomm_path(name@),
{
    proof {
        reveal_strlit("/dev/");
    }
    let has_prefix: bool = name.unicode_len() >= 5 && name.get_char(0) == '/' && name.get_char(1)
        == 'd' && name.get_char(2) == 'e' && name.get_char(3) == 'v' && name.get_char(4) == '/';
    if has_prefix {
        proof {
            assert(name@.subrange(0, 5) =~= "/dev/"@);
        }
        String::from_str(name)
    } else {
        proof {
            if name@.len() >= 5 && name@.subrange(0, 5) == "/dev/"@ {
                assert(name@[0] == name@.subrange(0, 5)[0]);
                assert(name@[1] == name@.subrange(0, 5)[1]);
                assert(name@[2] == name@.subrange(0, 5)[2]);
                assert(name@[3] == name@.subrange(0, 5)[3]);
                assert(name@[4] == name@.subrange(0, 5)[4]);
                assert(false);
            }
        }
        String::from_str("/dev/").concat(name)
    }
}

/// The RFCOMM device name with index `i`, for indices 0 through 9.
pub open spec fn spec_rfcomm_name(i: int) -> Seq<char> {
    if i == 0 {
        "rfcomm0"@
    } else if i == 1 {
        "rfcomm1"@
    } else if i == 2 {
        "rfcomm2"@
    } else if i == 3 {
        "rfcomm3"@
    } else if i == 4 {
        "rfcomm4"@
    } else if i == 5 {
        "rfcomm5"@
    } else if i == 6 {
        "rfcomm6"@
    } else if i == 7 {
        "rfcomm7"@
    } else if i == 8 {
        "rfcomm8"@
    } else {
        "rfcomm9"@
    }
}

/// The first index in 0..10 whose device node does not exist yet, or 10
/// when all of them do.
pub open spec fn spec_first_free_rfcomm(taken: Seq<bool>, from: int) -> int
    decreases 10 - from,
{
    if from < 0 || from >= 10 {
        10
    } else if !taken[from] {
        from
    } else {
        spec_first_free_rfcomm(taken, from + 1)
    }
}

/// Picks the name of the first free RFCOMM device node. `taken[i]` says
/// whether the node for index `i` exists already; when all ten are taken
/// the answer falls back to the name for index 0.
pub fn next_available_rfcomm_name(taken: &Vec<bool>) -> (name: String)
    requires
        taken@.len() == 10,
    ensures
        ({
            let first = spec_first_free_rfcomm(taken@, 0);
            name@ == if first == 10 {
                spec_rfcomm_name(0)
            } else {
                spec_rfcomm_name(first)
            }
        }),
{
    let mut index: usize = 0;
    while index < 10
        invariant
            index <= 10,
            taken@.len() == 10,
            spec_first_free_rfcomm(taken@, 0) == spec_first_free_rfcomm(taken@, index as int),
        decreases 10 - index,
    {
        if !taken[index] {
            return rfcomm_name_for(index);
        }
        index = index + 1;
    }
    rfcomm_name_for(0)
}

/// The RFCOMM device name for one index.
fn rfcomm_name_for(index: usize) -> (name: String)
    requires
        index < 10,
    ensures
        name@ == spec_rfcomm_name(index as int),
{
    if index == 0 {
        String::from_str("rfcomm0")
    } else if index == 1 {
        String::from_str("rfcomm1")
    } else if index == 2 {
        String::from_str("rfcomm2")
    } else if index == 3 {
        String::from_str("rfcomm3")
    } else if index == 4 {
        String::from_str("rfcomm4")
    } else if index == 5 {
        String::from_str("rfcomm5")
    } else if index == 6 {
        String::from_str("rfcomm6")
    } else if index == 7 {
        String::from_str("rfcomm7")
    } else if index == 8 {
        String::from_str("rfcomm8")
    } else {
        String::from_str("rfcomm9")
    }
}

} // verus!
