//! Runtime configuration: production mode or debug mode.
//!
//! Debug mode (`CI144_DEBUG=1`, read once at start-up by the application):
//! - rule 6 (Replay-Enable=0 forces Medium risk) may be skipped;
//! - rules 1-3 (Catastrophic hard override) stay in force.

use vstd::prelude::*;

verus! {

/// Name of the environment variable that turns debug mode on.
pub const DEBUG_ENV_VAR: &'static str = "CI144_DEBUG";

/// `c` with an ASCII upper-case letter lowered.
pub open spec fn ascii_lower(c: u8) -> u8 {
    if 65 <= c <= 90 {
        (c + 32) as u8
    } else {
        c
    }
}

/// A value of `DEBUG_ENV_VAR` that turns debug mode on: its bytes, letters
/// lowered, spell "1", "true", "yes" or "on".
pub open spec fn is_debug_setting(value: Seq<u8>) -> bool {
    let l = value.map_values(|c: u8| ascii_lower(c));
    ||| l == seq![49u8]
    ||| l == seq![116u8, 114u8, 117u8, 101u8]
    ||| l == seq![121u8, 101u8, 115u8]
    ||| l == seq![111u8, 110u8]
}

/// Letter case does not matter: a value and its lower-case form select the
/// same mode.
pub proof fn lemma_debug_setting_ignores_case(value: Seq<u8>)
    ensures
        is_debug_setting(value.map_values(|c: u8| ascii_lower(c))) == is_debug_setting(value),
{
    let l = value.map_values(|c: u8| ascii_lower(c));
    assert(l.map_values(|c: u8| ascii_lower(c)) =~= l);
}

/// The documented spellings: "1", "TRUE", "Yes" and "ON" turn debug mode on;
/// "0", "false" and the empty value do not.
pub proof fn lemma_documented_debug_settings()
    ensures
        is_debug_setting(seq![49u8]),
        is_debug_setting(seq![84u8, 82u8, 85u8, 69u8]),
        is_debug_setting(seq![89u8, 101u8, 115u8]),
        is_debug_setting(seq![79u8, 78u8]),
        !is_debug_setting(seq![48u8]),
        !is_debug_setting(seq![102u8, 97u8, 108u8, 115u8, 101u8]),
        !is_debug_setting(Seq::<u8>::empty()),
{
    let one = seq![49u8];
    assert(one.map_values(|c: u8| ascii_lower(c)) =~= seq![49u8]);
    let t = seq![84u8, 82u8, 85u8, 69u8];
    assert(t.map_values(|c: u8| ascii_lower(c)) =~= seq![116u8, 114u8, 117u8, 101u8]);
    let y = seq![89u8, 101u8, 115u8];
    assert(y.map_values(|c: u8| ascii_lower(c)) =~= seq![121u8, 101u8, 115u8]);
    let o = seq![79u8, 78u8];
    assert(o.map_values(|c: u8| ascii_lower(c)) =~= seq![111u8, 110u8]);
    let z = seq![48u8];
    let lz = z.map_values(|c: u8| ascii_lower(c));
    assert(lz[0] == 48u8);
    assert(lz != seq![49u8]) by {
        assert(seq![49u8][0] == 49u8);
    }
    let f = seq![102u8, 97u8, 108u8, 115u8, 101u8];
    assert(f.map_values(|c: u8| ascii_lower(c)).len() == 5);
    assert(Seq::<u8>::empty().map_values(|c: u8| ascii_lower(c)).len() == 0);
}

/// `value`, letters lowered, equals `target`.
fn lowered_equals(value: &[u8], target: &[u8]) -> (r: bool)
    ensures
        r == (value@.map_values(|c: u8| ascii_lower(c)) == target@),
{
    let ghost l = value@.map_values(|c: u8| ascii_lower(c));
    if value.len() != target.len() {
        assert(l.len() != target@.len());
        return false;
    }
    let mut i: usize = 0;
    while i < value.len()
        invariant
            i <= value@.len(),
            value@.len() == target@.len(),
            l == value@.map_values(|c: u8| ascii_lower(c)),
            forall|j: int| 0 <= j < i ==> l[j] == target@[j],
        decreases value@.len() - i,
    {
        let c = value[i];
        let lowered: u8 = if 65 <= c && c <= 90 {
            c + 32
        } else {
            c
        };
        if lowered != target[i] {
            assert(l[i as int] != target@[i as int]);
            return false;
        }
        i = i + 1;
    }
    assert(l =~= target@);
    true
}

/// BIND-19 runtime configuration.
#[derive(Debug, Clone, Copy)]
pub struct BindConfig {
    /// Debug mode: rule 6 may be skipped. Production mode otherwise.
    pub debug_mode: bool,
}

impl BindConfig {
    /// The configuration a value of `DEBUG_ENV_VAR` selects: debug mode for
    /// "1", "true", "yes" or "on" in any letter case, production mode for any
    /// other value or none.
    pub fn from_env_value(value: Option<&str>) -> (r: Self)
        ensures
            r.debug_mode == match value {
                Some(v) => is_debug_setting(vstd::utf8::encode_utf8(v@)),
                None => false,
            },
    {
        let debug_mode = match value {
            Some(v) => {
                let b = v.as_bytes();
                let one: [u8; 1] = [49u8];
                let word_true: [u8; 4] = [116u8, 114u8, 117u8, 101u8];
                let word_yes: [u8; 3] = [121u8, 101u8, 115u8];
                let word_on: [u8; 2] = [111u8, 110u8];
                assert(one@ =~= seq![49u8]);
                assert(word_true@ =~= seq![116u8, 114u8, 117u8, 101u8]);
                assert(word_yes@ =~= seq![121u8, 101u8, 115u8]);
                assert(word_on@ =~= seq![111u8, 110u8]);
                lowered_equals(b, &one) || lowered_equals(b, &word_true) || lowered_equals(
                    b,
                    &word_yes,
                ) || lowered_equals(b, &word_on)
            },
            None => false,
        };
        BindConfig { debug_mode }
    }

    /// Debug mode is on.
    pub fn is_debug(&self) -> (r: bool)
        ensures
            r == self.debug_mode,
    {
        self.debug_mode
    }

    /// Rule 6 is enforced: in production mode only.
    pub fn rule6_enabled(&self) -> (r: bool)
        ensures
            r == !self.debug_mode,
    {
        !self.debug_mode
    }

    /// Rules 1-3 are enforced: always, in either mode.
    pub fn catastrophic_rules_enabled(&self) -> (r: bool)
        ensures
            r,
    {
        true
    }
}

impl Default for BindConfig {
    /// Production mode.
    fn default() -> (r: Self)
        ensures
            !r.debug_mode,
    {
        BindConfig { debug_mode: false }
    }
}

} // verus!
