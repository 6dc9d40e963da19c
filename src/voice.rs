use vstd::prelude::*;

verus! {

/// The named timbres that the synthesis endpoint accepts.
#[derive(Clone, Copy, Debug, PartialEq, Eq, Structural)]
pub enum Voice {
    Alloy,
    Echo,
    Fable,
    Onyx,
    Nova,
    Shimmer,
}

/// The wire name of each voice: its variant name in kebab case.
pub open spec fn voice_name(v: Voice) -> Seq<char> {
    match v {
        Voice::Alloy => seq!['a', 'l', 'l', 'o', 'y'],
        Voice::Echo => seq!['e', 'c', 'h', 'o'],
        Voice::Fable => seq!['f', 'a', 'b', 'l', 'e'],
        Voice::Onyx => seq!['o', 'n', 'y', 'x'],
        Voice::Nova => seq!['n', 'o', 'v', 'a'],
        Voice::Shimmer => seq!['s', 'h', 'i', 'm', 'm', 'e', 'r'],
    }
}

impl Voice {
    /// The name sent in the request body for this voice.
    pub fn name(&self) -> (r: String)
        ensures
            r@ == voice_name(*self),
    {
        let s: &str = match self {
            Voice::Alloy => "alloy",
            Voice::Echo => "echo",
            Voice::Fable => "fable",
            Voice::Onyx => "onyx",
            Voice::Nova => "nova",
            Voice::Shimmer => "shimmer",
        };
        proof {
            reveal_strlit("alloy");
            reveal_strlit("echo");
            reveal_strlit("fable");
            reveal_strlit("onyx");
            reveal_strlit("nova");
            reveal_strlit("shimmer");
        }
        let r = String::from_str(s);
        proof {
            assert(r@ =~= voice_name(*self));
        }
        r
    }
}

impl Default for Voice {
    fn default() -> (r: Voice)
        ensures
            r == Voice::Nova,
    {
        Voice::Nova
    }
}

/// Distinct voices have distinct wire names.
pub proof fn voice_name_injective(a: Voice, b: Voice)
    ensures
        voice_name(a) == voice_name(b) ==> a == b,
{
    if voice_name(a) == voice_name(b) && a != b {
        let na = voice_name(a);
        let nb = voice_name(b);
        assert(na.len() == nb.len());
        assert(na[0] == nb[0]);
        assert(na[na.len() - 1] == nb[nb.len() - 1]);
    }
}

} // verus!
