//! The persisted Configuration record and its text codec.
//!
//! A configuration is four named string fields.  On disk it is a key/value
//! text file with exactly four lines, one `key: value` line per field, in a
//! fixed order.  `to_text` renders that form exactly; `from_text` accepts
//! exactly that form and nothing else, so a load after a save returns the
//! saved record, and anything else is reported as corrupt.

use vstd::prelude::*;
use crate::text::{has_no_newline, no_newline};

verus! {

/// The deployment context collected from the user and persisted between runs.
pub struct Config {
    pub subscription_id: String,
    pub resource_group: String,
    pub workspace_name: String,
    pub location: String,
}

/// The mathematical view of a configuration: four character sequences.
pub struct ConfigV {
    pub subscription_id: Seq<char>,
    pub resource_group: Seq<char>,
    pub workspace_name: Seq<char>,
    pub location: Seq<char>,
}

impl View for Config {
    type V = ConfigV;

    open spec fn view(&self) -> ConfigV {
        ConfigV {
            subscription_id: self.subscription_id@,
            resource_group: self.resource_group@,
            workspace_name: self.workspace_name@,
            location: self.location@,
        }
    }
}

impl ConfigV {
    /// A well-formed record: all four fields populated, none spanning lines.
    pub open spec fn wf(self) -> bool {
        &&& self.subscription_id.len() > 0 && no_newline(self.subscription_id)
        &&& self.resource_group.len() > 0 && no_newline(self.resource_group)
        &&& self.workspace_name.len() > 0 && no_newline(self.workspace_name)
        &&& self.location.len() > 0 && no_newline(self.location)
    }
}

/// One `key: value` line of the configuration file, line break included.
pub open spec fn spec_field_line(key: Seq<char>, value: Seq<char>) -> Seq<char> {
    key + ": "@ + value + "\n"@
}

/// The exact file content that holds a configuration record.
pub open spec fn spec_config_text(c: ConfigV) -> Seq<char> {
    spec_field_line("subscription_id"@, c.subscription_id)
        + spec_field_line("resource_group"@, c.resource_group)
        + spec_field_line("workspace_name"@, c.workspace_name)
        + spec_field_line("location"@, c.location)
}

/// `t` occurs in `s` starting at position `pos`.
pub open spec fn prefix_at(s: Seq<char>, pos: int, t: Seq<char>) -> bool {
    &&& 0 <= pos
    &&& pos + t.len() <= s.len()
    &&& s.subrange(pos, pos + t.len()) == t
}

impl Config {
    /// True exactly when the record is well-formed.
    pub fn is_wf(&self) -> (r: bool)
        ensures
            r == self@.wf(),
    {
        !self.subscription_id.as_str().is_empty()
            && has_no_newline(self.subscription_id.as_str())
            && !self.resource_group.as_str().is_empty()
            && has_no_newline(self.resource_group.as_str())
            && !self.workspace_name.as_str().is_empty()
            && has_no_newline(self.workspace_name.as_str())
            && !self.location.as_str().is_empty()
            && has_no_newline(self.location.as_str())
    }
}

/// Renders the configuration file content for `c`.
pub fn to_text(c: &Config) -> (r: String)
    ensures
        r@ == spec_config_text(c@),
{
    let mut out = String::new();
    out.append("subscription_id");
    out.append(": ");
    out.append(c.subscription_id.as_str());
    out.append("\n");
    out.append("resource_group");
    out.append(": ");
    out.append(c.resource_group.as_str());
    out.append("\n");
    out.append("workspace_name");
    out.append(": ");
    out.append(c.workspace_name.as_str());
    out.append("\n");
    out.append("location");
    out.append(": ");
    out.append(c.location.as_str());
    out.append("\n");
    proof {
        assert(out@ =~= spec_config_text(c@));
    }
    out
}

/// Renders the file content for a save, refusing records that are not
/// well-formed: only complete, single-line field values ever reach the disk,
/// so a present configuration file always holds a valid record.
pub fn render_for_save(c: &Config) -> (r: Option<String>)
    ensures
        c@.wf() ==> (r matches Some(t) && t@ == spec_config_text(c@)),
        !c@.wf() ==> r is None,
{
    if c.is_wf() {
        Some(to_text(c))
    } else {
        None
    }
}

/// Reads one `key: value` line at position `pos`.  Returns the value and the
/// position just past the line break, or `None` when no such line starts
/// there.  The contract pins both directions: a `Some` answer reproduces the
/// input slice exactly, and whenever such a line is present the answer is
/// `Some` with exactly its value.
fn parse_field(s: &str, pos: usize, key: &str) -> (r: Option<(String, usize)>)
    requires
        pos <= s@.len(),
    ensures
        r matches Some(vp) ==> {
            &&& pos < vp.1 <= s@.len()
            &&& no_newline(vp.0@)
            &&& vp.1 == pos + spec_field_line(key@, vp.0@).len()
            &&& s@.subrange(pos as int, vp.1 as int) == spec_field_line(key@, vp.0@)
        },
        forall|w: Seq<char>|
            no_newline(w) && prefix_at(s@, pos as int, spec_field_line(key@, w))
                ==> (r matches Some(vp) && vp.0@ == w),
{
    let slen = s.unicode_len();
    let klen = key.unicode_len();
    proof {
        reveal_strlit(": ");
        reveal_strlit("\n");
    }
    let mut i: usize = 0;
    while i < klen
        invariant
            slen == s@.len(),
            klen == key@.len(),
            pos <= slen,
            0 <= i <= klen,
            forall|k: int| 0 <= k < i ==> pos + k < slen && s@[pos + k] == key@[k],
        decreases klen - i,
    {
        if slen - pos <= i {
            proof {
                assert forall|w: Seq<char>|
                    no_newline(w) && prefix_at(s@, pos as int, spec_field_line(key@, w))
                        implies false by {
                    assert(pos + spec_field_line(key@, w).len() > pos + i);
                }
            }
            return None;
        }
        if s.get_char(pos + i) != key.get_char(i) {
            proof {
                assert forall|w: Seq<char>|
                    no_newline(w) && prefix_at(s@, pos as int, spec_field_line(key@, w))
                        implies false by {
                    let line = spec_field_line(key@, w);
                    assert(s@.subrange(pos as int, pos + line.len())[i as int] == s@[pos + i]);
                    assert(line[i as int] == key@[i as int]);
                }
            }
            return None;
        }
        i = i + 1;
    }
    proof {
        if klen > 0 {
            let k = klen - 1;
            assert(s@[pos + k] == key@[k as int]);
            assert(pos + k < slen);
        }
    }
    let rem = slen - pos - klen;
    if rem < 2 {
        proof {
            assert forall|w: Seq<char>|
                no_newline(w) && prefix_at(s@, pos as int, spec_field_line(key@, w))
                    implies false by {
                assert(pos + spec_field_line(key@, w).len() >= pos + klen + 3);
            }
        }
        return None;
    }
    if s.get_char(pos + klen) != ':' {
        proof {
            assert forall|w: Seq<char>|
                no_newline(w) && prefix_at(s@, pos as int, spec_field_line(key@, w))
                    implies false by {
                let line = spec_field_line(key@, w);
                assert(s@.subrange(pos as int, pos + line.len())[klen as int] == s@[pos + klen]);
                assert(line[klen as int] == (": "@)[0]);
            }
        }
        return None;
    }
    if s.get_char(pos + klen + 1) != ' ' {
        proof {
            assert forall|w: Seq<char>|
                no_newline(w) && prefix_at(s@, pos as int, spec_field_line(key@, w))
                    implies false by {
                let line = spec_field_line(key@, w);
                assert(s@.subrange(pos as int, pos + line.len())[klen + 1] == s@[pos + klen + 1]);
                assert(line[klen + 1] == (": "@)[1]);
            }
        }
        return None;
    }
    let vstart = pos + klen + 2;
    let mut j: usize = vstart;
    while j < slen && s.get_char(j) != '\n'
        invariant
            slen == s@.len(),
            vstart <= j <= slen,
            forall|k: int| vstart <= k < j ==> s@[k] != '\n',
        decreases slen - j,
    {
        j = j + 1;
    }
    if j == slen {
        proof {
            assert forall|w: Seq<char>|
                no_newline(w) && prefix_at(s@, pos as int, spec_field_line(key@, w))
                    implies false by {
                let line = spec_field_line(key@, w);
                let nl = vstart + w.len();
                assert(s@.subrange(pos as int, pos + line.len())[nl - pos] == s@[nl as int]);
                assert(line[nl - pos] == ("\n"@)[0]);
                assert(s@[nl as int] != '\n');
            }
        }
        return None;
    }
    let v = s.substring_char(vstart, j);
    let value = String::from_str(v);
    let next = j + 1;
    proof {
        assert(s@[j as int] == '\n');
        assert(s@.subrange(pos as int, next as int) =~= spec_field_line(key@, value@)) by {
            let line = spec_field_line(key@, value@);
            assert(value@.len() == j - vstart);
            assert forall|t: int| 0 <= t < line.len()
                implies s@.subrange(pos as int, next as int)[t] == line[t] by {
                if t < klen {
                    assert(line[t] == key@[t]);
                    assert(s@[pos + t] == key@[t]);
                } else if t == klen {
                    assert(line[t] == (": "@)[0]);
                } else if t == klen + 1 {
                    assert(line[t] == (": "@)[1]);
                } else if t < line.len() - 1 {
                    assert(line[t] == value@[t - klen - 2]);
                    assert(value@[t - klen - 2] == s@[vstart + (t - klen - 2)]);
                } else {
                    assert(line[t] == ("\n"@)[0]);
                }
            }
        }
        assert forall|w: Seq<char>|
            no_newline(w) && prefix_at(s@, pos as int, spec_field_line(key@, w))
                implies value@ == w by {
            let line = spec_field_line(key@, w);
            assert(line[klen + 2 + w.len()] == ("\n"@)[0]);
            assert(s@.subrange(pos as int, pos + line.len())[klen + 2 + w.len()]
                == s@[vstart + w.len()]);
            assert(s@[vstart + w.len()] == '\n');
            assert forall|t: int| 0 <= t < w.len() implies s@[vstart + t] == w[t] by {
                assert(line[klen + 2 + t] == w[t]);
                assert(s@.subrange(pos as int, pos + line.len())[klen + 2 + t]
                    == s@[vstart + t]);
            }
            if j < vstart + w.len() {
                assert(s@[j as int] == w[j - vstart]);
                assert(w[j - vstart] != '\n');
            }
            assert(j == vstart + w.len());
            assert(value@ =~= w);
        }
    }
    Some((value, next))
}

/// Every position and prefix fact that the four lines of a configuration
/// text determine.
proof fn lemma_text_prefixes(s: Seq<char>, v: ConfigV)
    requires
        s == spec_config_text(v),
    ensures
        ({
            let l1 = spec_field_line("subscription_id"@, v.subscription_id);
            let l2 = spec_field_line("resource_group"@, v.resource_group);
            let l3 = spec_field_line("workspace_name"@, v.workspace_name);
            let l4 = spec_field_line("location"@, v.location);
            &&& s.len() == l1.len() + l2.len() + l3.len() + l4.len()
            &&& prefix_at(s, 0, l1)
            &&& prefix_at(s, l1.len() as int, l2)
            &&& prefix_at(s, (l1.len() + l2.len()) as int, l3)
            &&& prefix_at(s, (l1.len() + l2.len() + l3.len()) as int, l4)
        }),
{
    let l1 = spec_field_line("subscription_id"@, v.subscription_id);
    let l2 = spec_field_line("resource_group"@, v.resource_group);
    let l3 = spec_field_line("workspace_name"@, v.workspace_name);
    let l4 = spec_field_line("location"@, v.location);
    assert(s.subrange(0, l1.len() as int) =~= l1);
    assert(s.subrange(l1.len() as int, (l1.len() + l2.len()) as int) =~= l2);
    assert(s.subrange((l1.len() + l2.len()) as int, (l1.len() + l2.len() + l3.len()) as int)
        =~= l3);
    assert(s.subrange((l1.len() + l2.len() + l3.len()) as int, s.len() as int) =~= l4);
}

proof fn lemma_field_line_value_determined(
    s: Seq<char>,
    pos: int,
    key: Seq<char>,
    va: Seq<char>,
    vb: Seq<char>,
)
    requires
        no_newline(va),
        no_newline(vb),
        prefix_at(s, pos, spec_field_line(key, va)),
        prefix_at(s, pos, spec_field_line(key, vb)),
    ensures
        va == vb,
{
    reveal_strlit("\n");
    reveal_strlit(": ");
    let la = spec_field_line(key, va);
    let lb = spec_field_line(key, vb);
    let k = key.len() as int;
    if va.len() < vb.len() {
        let t = k + 2 + va.len();
        assert(s.subrange(pos, pos + la.len())[t] == s[pos + t]);
        assert(la[t] == ("\n"@)[0]);
        assert(s.subrange(pos, pos + lb.len())[t] == s[pos + t]);
        assert(lb[t] == vb[va.len() as int]);
        assert(false);
    }
    if vb.len() < va.len() {
        let t = k + 2 + vb.len();
        assert(s.subrange(pos, pos + lb.len())[t] == s[pos + t]);
        assert(lb[t] == ("\n"@)[0]);
        assert(s.subrange(pos, pos + la.len())[t] == s[pos + t]);
        assert(la[t] == va[vb.len() as int]);
        assert(false);
    }
    assert(va =~= vb) by {
        assert forall|t: int| 0 <= t < va.len() implies va[t] == vb[t] by {
            assert(la[k + 2 + t] == va[t]);
            assert(lb[k + 2 + t] == vb[t]);
            assert(s.subrange(pos, pos + la.len())[k + 2 + t] == s[pos + k + 2 + t]);
            assert(s.subrange(pos, pos + lb.len())[k + 2 + t] == s[pos + k + 2 + t]);
        }
    }
}

/// Round-trip backbone: no two well-formed records render to the same file
/// content, so the record a file holds is the one that was saved into it.
pub proof fn lemma_config_text_injective(a: ConfigV, b: ConfigV)
    requires
        a.wf(),
        b.wf(),
        spec_config_text(a) == spec_config_text(b),
    ensures
        a == b,
{
    let s = spec_config_text(a);
    lemma_text_prefixes(s, a);
    lemma_text_prefixes(s, b);
    let l1 = spec_field_line("subscription_id"@, a.subscription_id);
    lemma_field_line_value_determined(
        s, 0, "subscription_id"@, a.subscription_id, b.subscription_id);
    let l2 = spec_field_line("resource_group"@, a.resource_group);
    lemma_field_line_value_determined(
        s, l1.len() as int, "resource_group"@, a.resource_group, b.resource_group);
    let l3 = spec_field_line("workspace_name"@, a.workspace_name);
    lemma_field_line_value_determined(
        s, (l1.len() + l2.len()) as int, "workspace_name"@,
        a.workspace_name, b.workspace_name);
    lemma_field_line_value_determined(
        s, (l1.len() + l2.len() + l3.len()) as int, "location"@, a.location, b.location);
}

/// Parses a configuration file's content.  Succeeds exactly on the text that
/// `to_text` renders for a well-formed record, and then returns that record:
/// together with `to_text` this is the round trip, a load right after a save
/// yields a record field-equal to the one saved.
pub fn from_text(s: &str) -> (r: Option<Config>)
    ensures
        r matches Some(c) ==> c@.wf() && s@ == spec_config_text(c@),
        forall|v: ConfigV| v.wf() && s@ == spec_config_text(v)
            ==> (r matches Some(c) && c@ == v),
{
    let slen = s.unicode_len();
    let r1 = parse_field(s, 0, "subscription_id");
    if r1.is_none() {
        proof {
            assert forall|v: ConfigV| v.wf() && s@ == spec_config_text(v) implies false by {
                lemma_text_prefixes(s@, v);
            }
        }
        return None;
    }
    let (v1, p1) = r1.unwrap();
    let r2 = parse_field(s, p1, "resource_group");
    if r2.is_none() {
        proof {
            assert forall|v: ConfigV| v.wf() && s@ == spec_config_text(v) implies false by {
                lemma_text_prefixes(s@, v);
            }
        }
        return None;
    }
    let (v2, p2) = r2.unwrap();
    let r3 = parse_field(s, p2, "workspace_name");
    if r3.is_none() {
        proof {
            assert forall|v: ConfigV| v.wf() && s@ == spec_config_text(v) implies false by {
                lemma_text_prefixes(s@, v);
            }
        }
        return None;
    }
    let (v3, p3) = r3.unwrap();
    let r4 = parse_field(s, p3, "location");
    if r4.is_none() {
        proof {
            assert forall|v: ConfigV| v.wf() && s@ == spec_config_text(v) implies false by {
                lemma_text_prefixes(s@, v);
            }
        }
        return None;
    }
    let (v4, p4) = r4.unwrap();
    if p4 != slen
        || v1.as_str().is_empty()
        || v2.as_str().is_empty()
        || v3.as_str().is_empty()
        || v4.as_str().is_empty()
    {
        proof {
            assert forall|v: ConfigV| v.wf() && s@ == spec_config_text(v) implies false by {
                lemma_text_prefixes(s@, v);
            }
        }
        return None;
    }
    let c = Config {
        subscription_id: v1,
        resource_group: v2,
        workspace_name: v3,
        location: v4,
    };
    proof {
        assert(s@ =~= spec_config_text(c@)) by {
            let l1 = spec_field_line("subscription_id"@, c@.subscription_id);
            let l2 = spec_field_line("resource_group"@, c@.resource_group);
            let l3 = spec_field_line("workspace_name"@, c@.workspace_name);
            let l4 = spec_field_line("location"@, c@.location);
            assert forall|t: int| 0 <= t < spec_config_text(c@).len()
                implies s@[t] == spec_config_text(c@)[t] by {
                if t < p1 {
                    assert(s@.subrange(0, p1 as int)[t] == s@[t]);
                } else if t < p2 {
                    assert(s@.subrange(p1 as int, p2 as int)[t - p1] == s@[t]);
                } else if t < p3 {
                    assert(s@.subrange(p2 as int, p3 as int)[t - p2] == s@[t]);
                } else {
                    assert(s@.subrange(p3 as int, p4 as int)[t - p3] == s@[t]);
                }
            }
        }
        assert forall|v: ConfigV| v.wf() && s@ == spec_config_text(v)
            implies c@ == v by {
            lemma_text_prefixes(s@, v);
        }
    }
    Some(c)
}

/// What a load of the configuration file found.
pub enum LoadOutcome {
    /// The file was present and held a well-formed record.
    Loaded(Config),
    /// No configuration file exists; this is not an error.
    Absent,
    /// The file exists but does not hold a well-formed record.
    Corrupt,
}

impl LoadOutcome {
    /// True exactly when no configuration file was present.
    pub fn is_absent(&self) -> (r: bool)
        ensures
            r == (self is Absent),
    {
        match self {
            LoadOutcome::Absent => true,
            _ => false,
        }
    }

    /// True exactly when the file was present but unreadable as a record.
    pub fn is_corrupt(&self) -> (r: bool)
        ensures
            r == (self is Corrupt),
    {
        match self {
            LoadOutcome::Corrupt => true,
            _ => false,
        }
    }
}

/// Decides what a load found, from the file's content if one was present.
/// An absent file is reported as `Absent`, never as an error; a present file
/// is `Loaded` exactly when its content is the rendering of a well-formed
/// record, and `Corrupt` otherwise.
pub fn load_from(contents: Option<&str>) -> (r: LoadOutcome)
    ensures
        contents is None <==> r is Absent,
        contents matches Some(s) ==> {
            &&& (r matches LoadOutcome::Loaded(c) ==> c@.wf() && s@ == spec_config_text(c@))
            &&& forall|v: ConfigV| v.wf() && s@ == spec_config_text(v)
                    ==> (r matches LoadOutcome::Loaded(c) && c@ == v)
            &&& (r is Corrupt <==> !(exists|v: ConfigV| v.wf() && s@ == spec_config_text(v)))
        },
{
    match contents {
        None => LoadOutcome::Absent,
        Some(s) => match from_text(s) {
            Some(c) => LoadOutcome::Loaded(c),
            None => LoadOutcome::Corrupt,
        },
    }
}

} // verus!
