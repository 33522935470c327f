use vstd::prelude::*;
use vstd::string::*;

verus! {

/// Storage location for an uploaded track: the upload's file name placed
/// under the `tracks` directory with the `mp3` suffix.
pub fn track_path(file_name: &str) -> (r: String)
    ensures
        r@ == "tracks/"@ + file_name@ + ".mp3"@,
{
    let mut acc = String::from_str("tracks/");
    acc.append(file_name);
    let r = acc.concat(".mp3");
    proof {
        assert(r@ =~= "tracks/"@ + file_name@ + ".mp3"@);
    }
    r
}

} // verus!
