//! Discovery of the serial port and network interface of the host board.

use crate::host::text::{has_prefix, starts_with};
use vstd::prelude::*;
use vstd::string::StringExecFns;

verus! {

/// Reads the board model from the device tree.
pub struct DeviceTreeParser;

/// Picks the devices the host talks through.
pub struct DiscoveryManager;

/// A tty that is a USB serial adapter or a CDC-ACM device.
pub open spec fn is_uart_name(name: Seq<char>) -> bool {
    has_prefix(name, "ttyACM"@) || has_prefix(name, "ttyUSB"@)
}

/// A wired or wireless network interface.
pub open spec fn is_network_name(name: Seq<char>) -> bool {
    has_prefix(name, "eth"@) || has_prefix(name, "wlan"@)
}

/// `i` is the first name satisfying `pred`.
pub open spec fn first_match(names: Seq<Seq<char>>, pred: spec_fn(Seq<char>) -> bool, i: int) -> bool {
    &&& 0 <= i < names.len()
    &&& pred(names[i])
    &&& forall|j: int| 0 <= j < i ==> !pred(names[j])
}

/// The character views of a list of names.
pub open spec fn name_views(names: Seq<String>) -> Seq<Seq<char>> {
    names.map_values(|n: String| n@)
}

impl DiscoveryManager {
    /// The device path of the first serial device among the tty names, in
    /// listing order.
    pub fn select_uart(names: &Vec<String>) -> (r: Option<String>)
        ensures
            r matches Some(path) ==> exists|i: int|
                first_match(name_views(names@), |n: Seq<char>| is_uart_name(n), i) && path@ == "/dev/"@ + names@[i]@,
            r is None ==> forall|i: int| 0 <= i < names@.len() ==> !is_uart_name(#[trigger] names@[i]@),
    {
        let mut i: usize = 0;
        while i < names.len()
            invariant
                i <= names@.len(),
                forall|j: int| 0 <= j < i ==> !is_uart_name(#[trigger] names@[j]@),
            decreases names@.len() - i,
        {
            let name = names[i].as_str();
            if starts_with(name, "ttyACM") || starts_with(name, "ttyUSB") {
                let mut path = String::from_str("/dev/");
                path.append(name);
                proof {
                    let views = name_views(names@);
                    assert(views[i as int] == names@[i as int]@);
                    assert forall|j: int| 0 <= j < i implies !is_uart_name(views[j]) by {
                        assert(views[j] == names@[j]@);
                    }
                    assert(first_match(views, |n: Seq<char>| is_uart_name(n), i as int));
                }
                return Some(path);
            }
            i = i + 1;
        }
        None
    }

    /// The first network interface among the interface names, in listing
    /// order.
    pub fn select_network_interface(names: &Vec<String>) -> (r: Option<String>)
        ensures
            r matches Some(name) ==> exists|i: int|
                first_match(name_views(names@), |n: Seq<char>| is_network_name(n), i) && name@ == names@[i]@,
            r is None ==> forall|i: int| 0 <= i < names@.len() ==> !is_network_name(#[trigger] names@[i]@),
    {
        let mut i: usize = 0;
        while i < names.len()
            invariant
                i <= names@.len(),
                forall|j: int| 0 <= j < i ==> !is_network_name(#[trigger] names@[j]@),
            decreases names@.len() - i,
        {
            let name = names[i].as_str();
            if starts_with(name, "eth") || starts_with(name, "wlan") {
                proof {
                    let views = name_views(names@);
                    assert(views[i as int] == names@[i as int]@);
                    assert forall|j: int| 0 <= j < i implies !is_network_name(views[j]) by {
                        assert(views[j] == names@[j]@);
                    }
                    assert(first_match(views, |n: Seq<char>| is_network_name(n), i as int));
                }
                return Some(names[i].clone());
            }
            i = i + 1;
        }
        None
    }
}

/// The serial devices chosen are exactly the CDC-ACM devices (`ttyACM...`)
/// and the USB serial adapters (`ttyUSB...`).
pub proof fn lemma_uart_names(name: Seq<char>)
    ensures
        is_uart_name(name) <==> (name.len() >= 6 && name[0] == 't' && name[1] == 't' && name[2] == 'y' && ((
        name[3] == 'A' && name[4] == 'C' && name[5] == 'M') || (name[3] == 'U' && name[4] == 'S' && name[5]
            == 'B'))),
{
    reveal_strlit("ttyACM");
    reveal_strlit("ttyUSB");
    if name.len() >= 6 {
        let head = name.subrange(0, 6);
        assert(head[0] == name[0] && head[1] == name[1] && head[2] == name[2]);
        assert(head[3] == name[3] && head[4] == name[4] && head[5] == name[5]);
        if name[0] == 't' && name[1] == 't' && name[2] == 'y' && name[3] == 'A' && name[4] == 'C' && name[5] == 'M' {
            assert(head =~= "ttyACM"@);
        }
        if name[0] == 't' && name[1] == 't' && name[2] == 'y' && name[3] == 'U' && name[4] == 'S' && name[5] == 'B' {
            assert(head =~= "ttyUSB"@);
        }
    }
}

/// The interfaces chosen are exactly the wired (`eth...`) and wireless
/// (`wlan...`) ones.
pub proof fn lemma_network_names(name: Seq<char>)
    ensures
        is_network_name(name) <==> ((name.len() >= 3 && name[0] == 'e' && name[1] == 't' && name[2] == 'h') || (
        name.len() >= 4 && name[0] == 'w' && name[1] == 'l' && name[2] == 'a' && name[3] == 'n')),
{
    reveal_strlit("eth");
    reveal_strlit("wlan");
    if name.len() >= 3 {
        let head = name.subrange(0, 3);
        assert(head[0] == name[0] && head[1] == name[1] && head[2] == name[2]);
        if name[0] == 'e' && name[1] == 't' && name[2] == 'h' {
            assert(head =~= "eth"@);
        }
    }
    if name.len() >= 4 {
        let head = name.subrange(0, 4);
        assert(head[0] == name[0] && head[1] == name[1] && head[2] == name[2] && head[3] == name[3]);
        if name[0] == 'w' && name[1] == 'l' && name[2] == 'a' && name[3] == 'n' {
            assert(head =~= "wlan"@);
        }
    }
}

} // verus!

