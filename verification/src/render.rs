//! The result file's format: a JSON array, one object per case in judging
//! order, with the keys `case_id`, `status`, `time_used` and `space_used`.
//! The text is built here, character for character, against a spec of the
//! whole file; writing it to disk happens outside the library.

use vstd::prelude::*;
use vstd::string::StringExecFns;
use crate::decimal::{dec_str, is_digit, u32_to_dec, u64_to_dec};
use crate::record::TestResult;
use crate::verdict::{Verdict, label_spec};

verus! {

/// The JSON object for one case record.
pub open spec fn json_of_result(r: TestResult) -> Seq<char> {
    "{\"case_id\":"@ + dec_str(r.case_id as nat) + ",\"status\":\""@ + label_spec(r.status)
        + "\",\"time_used\":"@ + dec_str(r.time_used as nat) + ",\"space_used\":"@ + dec_str(
        r.space_used as nat,
    ) + "}"@
}

/// The comma-separated object list, in the records' order.
pub open spec fn json_items(rs: Seq<TestResult>) -> Seq<char>
    decreases rs.len(),
{
    if rs.len() == 0 {
        Seq::empty()
    } else if rs.len() == 1 {
        json_of_result(rs[0])
    } else {
        json_items(rs.drop_last()) + ","@ + json_of_result(rs.last())
    }
}

/// The whole result file: the object list in brackets.
pub open spec fn json_of_results(rs: Seq<TestResult>) -> Seq<char> {
    "["@ + json_items(rs) + "]"@
}

/// Equal concatenations under the same prefix have equal tails.
proof fn lemma_strip_prefix(p: Seq<char>, a: Seq<char>, b: Seq<char>)
    requires
        p + a == p + b,
    ensures
        a == b,
{
    assert((p + a).len() == p.len() + a.len());
    assert((p + b).len() == p.len() + b.len());
    assert(a.len() == b.len());
    assert forall|i: int| 0 <= i < a.len() implies a[i] == b[i] by {
        assert((p + a)[p.len() + i] == a[i]);
        assert((p + b)[p.len() + i] == b[i]);
    }
    assert(a =~= b);
}

/// Two verdict labels followed by a quote split an equal concatenation the
/// same way: no label holds a quote, and no label is a prefix of another.
proof fn lemma_label_split(v1: Verdict, v2: Verdict, t1: Seq<char>, t2: Seq<char>)
    requires
        t1.len() > 0,
        t2.len() > 0,
        t1[0] == '"',
        t2[0] == '"',
        label_spec(v1) + t1 == label_spec(v2) + t2,
    ensures
        v1 == v2,
        t1 == t2,
{
    reveal_strlit("OK");
    reveal_strlit("RE");
    reveal_strlit("TLE");
    reveal_strlit("MLE");
    reveal_strlit("CONTINUE");
    let l1 = label_spec(v1);
    let l2 = label_spec(v2);
    if l1.len() < l2.len() {
        assert((l1 + t1)[l1.len() as int] == t1[0]);
        assert((l2 + t2)[l1.len() as int] == l2[l1.len() as int]);
        assert(false);
    } else if l2.len() < l1.len() {
        assert((l2 + t2)[l2.len() as int] == t2[0]);
        assert((l1 + t1)[l2.len() as int] == l1[l2.len() as int]);
        assert(false);
    } else {
        assert forall|i: int| 0 <= i < l1.len() implies l1[i] == l2[i] by {
            assert((l1 + t1)[i] == l1[i]);
            assert((l2 + t2)[i] == l2[i]);
        }
        assert(l1 =~= l2);
        if v1 != v2 {
            assert(l1[0] == l2[0]);
            assert(false);
        }
        lemma_strip_prefix(l1, t1, t2);
    }
}

/// The rendered object, grouped from the right, so that each field can be
/// split off its tail in turn.
#[verifier::rlimit(50)]
proof fn lemma_obj_grouped(r: TestResult)
    ensures
        json_of_result(r) == "{\"case_id\":"@ + (dec_str(r.case_id as nat) + (",\"status\":\""@
            + (label_spec(r.status) + ("\",\"time_used\":"@ + (dec_str(r.time_used as nat) + (
        ",\"space_used\":"@ + (dec_str(r.space_used as nat) + "}"@))))))),
{
    assert(json_of_result(r) =~= "{\"case_id\":"@ + (dec_str(r.case_id as nat) + (
    ",\"status\":\""@ + (label_spec(r.status) + ("\",\"time_used\":"@ + (dec_str(
        r.time_used as nat,
    ) + (",\"space_used\":"@ + (dec_str(r.space_used as nat) + "}"@))))))));
}

/// Round-trip law, one record: the rendered JSON object determines the
/// record. Two records with the same rendering are the same record, so the
/// emitted text loses nothing of the verdict, the time or the memory.
#[verifier::rlimit(100)]
pub proof fn lemma_render_result_injective(r1: TestResult, r2: TestResult)
    requires
        json_of_result(r1) == json_of_result(r2),
    ensures
        r1 == r2,
{
    reveal_strlit(",\"status\":\"");
    reveal_strlit("\",\"time_used\":");
    reveal_strlit(",\"space_used\":");
    reveal_strlit("}");
    let h = "{\"case_id\":"@;
    let s_sep = ",\"status\":\""@;
    let q_sep = "\",\"time_used\":"@;
    let u_sep = ",\"space_used\":"@;
    let w = "}"@;
    let a1 = dec_str(r1.case_id as nat);
    let a2 = dec_str(r2.case_id as nat);
    let l1 = label_spec(r1.status);
    let l2 = label_spec(r2.status);
    let c1 = dec_str(r1.time_used as nat);
    let c2 = dec_str(r2.time_used as nat);
    let d1 = dec_str(r1.space_used as nat);
    let d2 = dec_str(r2.space_used as nat);
    crate::decimal::lemma_dec_round_trip(r1.case_id as nat);
    crate::decimal::lemma_dec_round_trip(r2.case_id as nat);
    crate::decimal::lemma_dec_round_trip(r1.time_used as nat);
    crate::decimal::lemma_dec_round_trip(r2.time_used as nat);
    crate::decimal::lemma_dec_round_trip(r1.space_used as nat);
    crate::decimal::lemma_dec_round_trip(r2.space_used as nat);

    let rest1 = a1 + (s_sep + (l1 + (q_sep + (c1 + (u_sep + (d1 + w))))));
    let rest2 = a2 + (s_sep + (l2 + (q_sep + (c2 + (u_sep + (d2 + w))))));
    lemma_obj_grouped(r1);
    lemma_obj_grouped(r2);
    assert(json_of_result(r1) == h + rest1);
    assert(json_of_result(r2) == h + rest2);
    lemma_strip_prefix(h, rest1, rest2);

    let tail_a1 = s_sep + (l1 + (q_sep + (c1 + (u_sep + (d1 + w)))));
    let tail_a2 = s_sep + (l2 + (q_sep + (c2 + (u_sep + (d2 + w)))));
    assert(tail_a1[0] == ',');
    assert(tail_a2[0] == ',');
    assert(!is_digit(','));
    crate::decimal::lemma_digit_run_split(a1, a2, tail_a1, tail_a2);
    assert(r1.case_id == r2.case_id);

    let tail_l1 = q_sep + (c1 + (u_sep + (d1 + w)));
    let tail_l2 = q_sep + (c2 + (u_sep + (d2 + w)));
    lemma_strip_prefix(s_sep, l1 + tail_l1, l2 + tail_l2);
    assert(tail_l1[0] == '"');
    assert(tail_l2[0] == '"');
    lemma_label_split(r1.status, r2.status, tail_l1, tail_l2);
    assert(r1.status == r2.status);

    let tail_c1 = u_sep + (d1 + w);
    let tail_c2 = u_sep + (d2 + w);
    lemma_strip_prefix(q_sep, c1 + tail_c1, c2 + tail_c2);
    assert(tail_c1[0] == ',');
    assert(tail_c2[0] == ',');
    crate::decimal::lemma_digit_run_split(c1, c2, tail_c1, tail_c2);
    assert(r1.time_used == r2.time_used);

    lemma_strip_prefix(u_sep, d1 + w, d2 + w);
    assert((d1 + w)[d1.len() as int] == '}');
    assert((d2 + w)[d2.len() as int] == '}');
    assert(!is_digit('}'));
    crate::decimal::lemma_digit_run_split(d1, d2, w, w);
    assert(r1.space_used == r2.space_used);
}

/// Equal concatenations over the same suffix have equal heads.
proof fn lemma_strip_suffix(a: Seq<char>, b: Seq<char>, s: Seq<char>)
    requires
        a + s == b + s,
    ensures
        a == b,
{
    assert((a + s).len() == a.len() + s.len());
    assert((b + s).len() == b.len() + s.len());
    assert(a.len() == b.len());
    assert forall|i: int| 0 <= i < a.len() implies a[i] == b[i] by {
        assert((a + s)[i] == a[i]);
        assert((b + s)[i] == b[i]);
    }
    assert(a =~= b);
}

/// No opening brace from position `k` on.
spec fn no_brace_from(s: Seq<char>, k: int) -> bool {
    forall|i: int| k <= i < s.len() ==> s[i] != '{'
}

proof fn lemma_no_brace_concat(x: Seq<char>, y: Seq<char>, k: int)
    requires
        0 <= k <= x.len(),
        no_brace_from(x, k),
        no_brace_from(y, 0),
    ensures
        no_brace_from(x + y, k),
{
    assert forall|i: int| k <= i < (x + y).len() implies (x + y)[i] != '{' by {
        if i < x.len() {
            assert((x + y)[i] == x[i]);
        } else {
            assert((x + y)[i] == y[i - x.len()]);
        }
    }
}

/// A rendered object starts with its one opening brace: `{` stands at its
/// first position and nowhere else, and the object is never empty.
#[verifier::rlimit(50)]
proof fn lemma_obj_shape(r: TestResult)
    ensures
        json_of_result(r).len() >= 12,
        json_of_result(r)[0] == '{',
        no_brace_from(json_of_result(r), 1),
{
    reveal_strlit("{\"case_id\":");
    reveal_strlit(",\"status\":\"");
    reveal_strlit("\",\"time_used\":");
    reveal_strlit(",\"space_used\":");
    reveal_strlit("}");
    reveal_strlit("OK");
    reveal_strlit("RE");
    reveal_strlit("TLE");
    reveal_strlit("MLE");
    reveal_strlit("CONTINUE");
    lemma_obj_grouped(r);
    crate::decimal::lemma_dec_round_trip(r.case_id as nat);
    crate::decimal::lemma_dec_round_trip(r.time_used as nat);
    crate::decimal::lemma_dec_round_trip(r.space_used as nat);
    let h = "{\"case_id\":"@;
    let s_sep = ",\"status\":\""@;
    let q_sep = "\",\"time_used\":"@;
    let u_sep = ",\"space_used\":"@;
    let w = "}"@;
    let a = dec_str(r.case_id as nat);
    let l = label_spec(r.status);
    let c = dec_str(r.time_used as nat);
    let d = dec_str(r.space_used as nat);
    assert(no_brace_from(w, 0));
    assert(no_brace_from(d, 0));
    lemma_no_brace_concat(d, w, 0);
    assert(no_brace_from(u_sep, 0));
    lemma_no_brace_concat(u_sep, d + w, 0);
    assert(no_brace_from(c, 0));
    lemma_no_brace_concat(c, u_sep + (d + w), 0);
    assert(no_brace_from(q_sep, 0));
    lemma_no_brace_concat(q_sep, c + (u_sep + (d + w)), 0);
    assert(no_brace_from(l, 0));
    lemma_no_brace_concat(l, q_sep + (c + (u_sep + (d + w))), 0);
    assert(no_brace_from(s_sep, 0));
    lemma_no_brace_concat(s_sep, l + (q_sep + (c + (u_sep + (d + w)))), 0);
    assert(no_brace_from(a, 0));
    lemma_no_brace_concat(a, s_sep + (l + (q_sep + (c + (u_sep + (d + w))))), 0);
    assert(no_brace_from(h, 1));
    lemma_no_brace_concat(h, a + (s_sep + (l + (q_sep + (c + (u_sep + (d + w)))))), 1);
    assert(json_of_result(r)[0] == h[0]);
    assert(json_of_result(r).len() >= h.len() + 1);
}

/// A non-empty object list starts with an object's opening brace.
proof fn lemma_items_shape(s: Seq<TestResult>)
    requires
        s.len() > 0,
    ensures
        json_items(s).len() >= 12,
        json_items(s)[0] == '{',
    decreases s.len(),
{
    if s.len() == 1 {
        lemma_obj_shape(s[0]);
    } else {
        lemma_items_shape(s.drop_last());
        lemma_obj_shape(s.last());
        assert(json_items(s)[0] == json_items(s.drop_last())[0]);
    }
}

/// The object list determines the records: the last object is split off by
/// the position of its opening brace, and induction does the rest.
#[verifier::rlimit(100)]
proof fn lemma_items_injective(aa: Seq<TestResult>, bb: Seq<TestResult>)
    requires
        json_items(aa) == json_items(bb),
    ensures
        aa == bb,
    decreases aa.len() + bb.len(),
{
    let t = json_items(aa);
    if aa.len() == 0 || bb.len() == 0 {
        if aa.len() == 0 && bb.len() > 0 {
            lemma_items_shape(bb);
            assert(false);
        }
        if bb.len() == 0 && aa.len() > 0 {
            lemma_items_shape(aa);
            assert(false);
        }
        assert(aa =~= bb);
    } else if aa.len() == 1 && bb.len() == 1 {
        lemma_render_result_injective(aa[0], bb[0]);
        assert(aa =~= bb);
    } else if aa.len() == 1 {
        lemma_obj_shape(aa[0]);
        lemma_items_shape(bb.drop_last());
        lemma_obj_shape(bb.last());
        let ob = json_of_result(bb.last());
        let pb = json_items(bb.drop_last()) + ","@;
        assert(t == pb + ob);
        let p = pb.len() as int;
        assert(t[p] == ob[0]);
        assert(p >= 1);
        assert(t[p] != '{');
        assert(false);
    } else if bb.len() == 1 {
        lemma_obj_shape(bb[0]);
        lemma_items_shape(aa.drop_last());
        lemma_obj_shape(aa.last());
        let oa = json_of_result(aa.last());
        let pa = json_items(aa.drop_last()) + ","@;
        assert(t == pa + oa);
        let p = pa.len() as int;
        assert(t[p] == oa[0]);
        assert(p >= 1);
        assert(t[p] != '{');
        assert(false);
    } else {
        lemma_obj_shape(aa.last());
        lemma_obj_shape(bb.last());
        lemma_items_shape(aa.drop_last());
        lemma_items_shape(bb.drop_last());
        let oa = json_of_result(aa.last());
        let ob = json_of_result(bb.last());
        let pa = json_items(aa.drop_last()) + ","@;
        let pb = json_items(bb.drop_last()) + ","@;
        assert(t == pa + oa);
        assert(t == pb + ob);
        if oa.len() < ob.len() {
            let p = t.len() - oa.len();
            assert(t[p] == oa[0]);
            assert(t[p] == ob[ob.len() - oa.len()]);
            assert(false);
        } else if ob.len() < oa.len() {
            let p = t.len() - ob.len();
            assert(t[p] == ob[0]);
            assert(t[p] == oa[oa.len() - ob.len()]);
            assert(false);
        } else {
            assert forall|i: int| 0 <= i < oa.len() implies oa[i] == ob[i] by {
                assert((pa + oa)[pa.len() + i] == oa[i]);
                assert((pb + ob)[pb.len() + i] == ob[i]);
            }
            assert(oa =~= ob);
            lemma_render_result_injective(aa.last(), bb.last());
            lemma_strip_suffix(pa, pb, oa);
            lemma_strip_suffix(json_items(aa.drop_last()), json_items(bb.drop_last()), ","@);
            lemma_items_injective(aa.drop_last(), bb.drop_last());
            assert forall|i: int| 0 <= i < aa.len() implies aa[i] == bb[i] by {
                if i < aa.len() - 1 {
                    assert(aa.drop_last()[i] == bb.drop_last()[i]);
                }
            }
            assert(aa =~= bb);
        }
    }
}

/// Round-trip law, whole file: the emitted text determines the verdict
/// vector. Rendering is injective, so whatever reads the result file back
/// and re-renders it reproduces the file exactly.
pub proof fn lemma_render_results_injective(aa: Seq<TestResult>, bb: Seq<TestResult>)
    requires
        json_of_results(aa) == json_of_results(bb),
    ensures
        aa == bb,
{
    lemma_strip_suffix("["@ + json_items(aa), "["@ + json_items(bb), "]"@);
    lemma_strip_prefix("["@, json_items(aa), json_items(bb));
    lemma_items_injective(aa, bb);
}

/// Renders one case record as its JSON object.
pub fn render_result(r: TestResult) -> (s: String)
    ensures
        s@ == json_of_result(r),
{
    let mut s = String::from_str("{\"case_id\":");
    let case_id = u32_to_dec(r.case_id);
    s.append(case_id.as_str());
    s.append(",\"status\":\"");
    s.append(r.status.label());
    s.append("\",\"time_used\":");
    let time_used = u64_to_dec(r.time_used);
    s.append(time_used.as_str());
    s.append(",\"space_used\":");
    let space_used = u64_to_dec(r.space_used);
    s.append(space_used.as_str());
    s.append("}");
    proof {
        assert(s@ =~= json_of_result(r));
    }
    s
}

/// Renders the verdict vector as the result file's text.
pub fn render_results(rs: &Vec<TestResult>) -> (s: String)
    ensures
        s@ == json_of_results(rs@),
{
    let mut s = String::from_str("[");
    let n = rs.len();
    let mut i: usize = 0;
    while i < n
        invariant
            0 <= i <= n,
            n == rs@.len(),
            s@ == "["@ + json_items(rs@.take(i as int)),
        decreases n - i,
    {
        if i > 0 {
            s.append(",");
        }
        let item = render_result(rs[i]);
        s.append(item.as_str());
        proof {
            assert(rs@.take(i + 1).drop_last() =~= rs@.take(i as int));
            assert(rs@.take(i + 1).last() == rs@[i as int]);
            if i == 0 {
                assert(json_items(rs@.take(1)) == json_of_result(rs@.take(1)[0]));
            }
            assert(s@ =~= "["@ + json_items(rs@.take(i + 1)));
        }
        i = i + 1;
    }
    s.append("]");
    proof {
        assert(rs@.take(n as int) =~= rs@);
        assert(s@ =~= json_of_results(rs@));
    }
    s
}

} // verus!
