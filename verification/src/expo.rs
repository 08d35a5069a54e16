//! The text exposition of the metrics registry: every histogram family with
//! its cumulative bucket, sum and count lines, then the request counter, in
//! the line-oriented scrape format monitoring collectors read. The exact text
//! is pinned by the specification functions here.

use vstd::prelude::*;

use crate::metrics::{labels_of, Family, FamilyChild, MetricsRegistry};
use crate::text::{append_escaped, append_u64, dec_of, escape_of, push_char};

verus! {

/// One label as it appears inside the braces of a metric line:
/// `name="value"`, the value escaped.
pub open spec fn label_pair(name: Seq<char>, value: Seq<char>) -> Seq<char> {
    name + seq!['=', '"'] + escape_of(value) + seq!['"']
}

/// The comma-separated label pairs of one child, in label order.
pub open spec fn labels_body(names: Seq<Seq<char>>, values: Seq<Seq<char>>) -> Seq<char>
    decreases names.len(),
{
    if names.len() == 0 || values.len() == 0 {
        Seq::empty()
    } else {
        let pair = label_pair(names.last(), values.last());
        if names.len() == 1 || values.len() == 1 {
            pair
        } else {
            labels_body(names.drop_last(), values.drop_last()) + seq![','] + pair
        }
    }
}

/// One cumulative bucket line: the child's labels followed by the bucket
/// bound under the `le` label, then the count of observations at or under
/// that bound.
pub open spec fn bucket_line(name: Seq<char>, lbody: Seq<char>, le: Seq<char>, v: u64) -> Seq<
    char,
> {
    name + "_bucket{"@ + lbody + ",le=\""@ + le + "\"} "@ + dec_of(v as nat) + seq!['\n']
}

/// A `_sum` or `_count` line of one child.
pub open spec fn tail_line(name: Seq<char>, kind: Seq<char>, lbody: Seq<char>, v: u64) -> Seq<
    char,
> {
    name + kind + seq!['{'] + lbody + "} "@ + dec_of(v as nat) + seq!['\n']
}

/// All the lines of one child: the six finite buckets, the unbounded bucket
/// (which always equals the count), the sum and the count.
pub open spec fn child_block(name: Seq<char>, lnames: Seq<Seq<char>>, child: FamilyChild) -> Seq<
    char,
> {
    let b = labels_body(lnames, labels_of(child.labels));
    bucket_line(name, b, "1"@, child.hist.le_1) + bucket_line(name, b, "5"@, child.hist.le_5)
        + bucket_line(name, b, "10"@, child.hist.le_10) + bucket_line(
        name,
        b,
        "25"@,
        child.hist.le_25,
    ) + bucket_line(name, b, "50"@, child.hist.le_50) + bucket_line(
        name,
        b,
        "100"@,
        child.hist.le_100,
    ) + bucket_line(name, b, "+Inf"@, child.hist.count) + tail_line(
        name,
        "_sum"@,
        b,
        child.hist.sum,
    ) + tail_line(name, "_count"@, b, child.hist.count)
}

/// The blocks of all children of a family, in order of first observation.
pub open spec fn children_blocks(
    name: Seq<char>,
    lnames: Seq<Seq<char>>,
    children: Seq<FamilyChild>,
) -> Seq<char>
    decreases children.len(),
{
    if children.len() == 0 {
        Seq::empty()
    } else {
        children_blocks(name, lnames, children.drop_last()) + child_block(
            name,
            lnames,
            children.last(),
        )
    }
}

/// The two comment lines announcing a histogram family.
pub open spec fn family_header(f: Family) -> Seq<char> {
    "# HELP "@ + f.name@ + seq![' '] + f.help@ + seq!['\n'] + "# TYPE "@ + f.name@
        + " histogram\n"@
}

/// The whole rendering of one histogram family.
pub open spec fn family_expo(f: Family) -> Seq<char> {
    family_header(f) + children_blocks(f.name@, labels_of(f.label_names), f.children@)
}

/// The rendering of the request counter.
pub open spec fn counter_expo(c: u64) -> Seq<char> {
    "# HELP request_counter total no of requests\n"@ + "# TYPE request_counter counter\n"@
        + "request_counter "@ + dec_of(c as nat) + seq!['\n']
}

/// The full exposition: the four families in their fixed order, then the
/// counter.
pub open spec fn registry_expo(r: MetricsRegistry) -> Seq<char> {
    family_expo(r.new_order) + family_expo(r.modify) + family_expo(r.cancel) + family_expo(
        r.depth,
    ) + counter_expo(r.request_counter)
}

/// Appends the comma-separated label pairs of one child.
fn append_labels(out: &mut String, names: &Vec<String>, values: &Vec<String>)
    requires
        names@.len() == values@.len(),
    ensures
        final(out)@ == old(out)@ + labels_body(labels_of(*names), labels_of(*values)),
{
    let n = names.len();
    let mut i: usize = 0;
    while i < n
        invariant
            i <= n,
            n == names@.len(),
            names@.len() == values@.len(),
            out@ == old(out)@ + labels_body(
                labels_of(*names).take(i as int),
                labels_of(*values).take(i as int),
            ),
        decreases n - i,
    {
        if i > 0 {
            push_char(out, ',');
        }
        out.append(names[i].as_str());
        push_char(out, '=');
        push_char(out, '"');
        append_escaped(out, values[i].as_str());
        push_char(out, '"');
        proof {
            let ln = labels_of(*names);
            let lv = labels_of(*values);
            assert(ln.take(i + 1 as int).drop_last() =~= ln.take(i as int));
            assert(lv.take(i + 1 as int).drop_last() =~= lv.take(i as int));
            assert(ln.take(i + 1 as int).last() == names@[i as int]@);
            assert(lv.take(i + 1 as int).last() == values@[i as int]@);
            assert(out@ =~= old(out)@ + labels_body(
                ln.take(i + 1 as int),
                lv.take(i + 1 as int),
            ));
        }
        i = i + 1;
    }
    proof {
        assert(labels_of(*names).take(n as int) =~= labels_of(*names));
        assert(labels_of(*values).take(n as int) =~= labels_of(*values));
    }
}

/// Appends one cumulative bucket line.
fn append_bucket_line(
    out: &mut String,
    name: &String,
    lnames: &Vec<String>,
    lvalues: &Vec<String>,
    le: &str,
    v: u64,
)
    requires
        lnames@.len() == lvalues@.len(),
    ensures
        final(out)@ == old(out)@ + bucket_line(
            name@,
            labels_body(labels_of(*lnames), labels_of(*lvalues)),
            le@,
            v,
        ),
{
    out.append(name.as_str());
    out.append("_bucket{");
    append_labels(out, lnames, lvalues);
    out.append(",le=\"");
    out.append(le);
    out.append("\"} ");
    append_u64(out, v);
    push_char(out, '\n');
    proof {
        assert(out@ =~= old(out)@ + bucket_line(
            name@,
            labels_body(labels_of(*lnames), labels_of(*lvalues)),
            le@,
            v,
        ));
    }
}

/// Appends one `_sum` or `_count` line.
fn append_tail_line(
    out: &mut String,
    name: &String,
    kind: &str,
    lnames: &Vec<String>,
    lvalues: &Vec<String>,
    v: u64,
)
    requires
        lnames@.len() == lvalues@.len(),
    ensures
        final(out)@ == old(out)@ + tail_line(
            name@,
            kind@,
            labels_body(labels_of(*lnames), labels_of(*lvalues)),
            v,
        ),
{
    out.append(name.as_str());
    out.append(kind);
    push_char(out, '{');
    append_labels(out, lnames, lvalues);
    out.append("} ");
    append_u64(out, v);
    push_char(out, '\n');
    proof {
        assert(out@ =~= old(out)@ + tail_line(
            name@,
            kind@,
            labels_body(labels_of(*lnames), labels_of(*lvalues)),
            v,
        ));
    }
}

/// Appends all the lines of one child.
fn append_child_block(out: &mut String, name: &String, lnames: &Vec<String>, child: &FamilyChild)
    requires
        lnames@.len() == child.labels@.len(),
    ensures
        final(out)@ == old(out)@ + child_block(name@, labels_of(*lnames), *child),
{
    append_bucket_line(out, name, lnames, &child.labels, "1", child.hist.le_1);
    append_bucket_line(out, name, lnames, &child.labels, "5", child.hist.le_5);
    append_bucket_line(out, name, lnames, &child.labels, "10", child.hist.le_10);
    append_bucket_line(out, name, lnames, &child.labels, "25", child.hist.le_25);
    append_bucket_line(out, name, lnames, &child.labels, "50", child.hist.le_50);
    append_bucket_line(out, name, lnames, &child.labels, "100", child.hist.le_100);
    append_bucket_line(out, name, lnames, &child.labels, "+Inf", child.hist.count);
    append_tail_line(out, name, "_sum", lnames, &child.labels, child.hist.sum);
    append_tail_line(out, name, "_count", lnames, &child.labels, child.hist.count);
    proof {
        assert(out@ =~= old(out)@ + child_block(name@, labels_of(*lnames), *child));
    }
}

/// Appends the whole rendering of one family.
fn append_family(out: &mut String, f: &Family)
    requires
        f.wf(),
    ensures
        final(out)@ == old(out)@ + family_expo(*f),
{
    out.append("# HELP ");
    out.append(f.name.as_str());
    push_char(out, ' ');
    out.append(f.help.as_str());
    push_char(out, '\n');
    out.append("# TYPE ");
    out.append(f.name.as_str());
    out.append(" histogram\n");
    proof {
        assert(out@ =~= old(out)@ + family_header(*f));
    }
    let n = f.children.len();
    let mut i: usize = 0;
    while i < n
        invariant
            i <= n,
            n == f.children@.len(),
            f.wf(),
            out@ == old(out)@ + family_header(*f) + children_blocks(
                f.name@,
                labels_of(f.label_names),
                f.children@.take(i as int),
            ),
        decreases n - i,
    {
        append_child_block(out, &f.name, &f.label_names, &f.children[i]);
        proof {
            let cs = f.children@;
            assert(cs.take(i + 1 as int).drop_last() =~= cs.take(i as int));
            assert(cs.take(i + 1 as int).last() == cs[i as int]);
            assert(out@ =~= old(out)@ + family_header(*f) + children_blocks(
                f.name@,
                labels_of(f.label_names),
                cs.take(i + 1 as int),
            ));
        }
        i = i + 1;
    }
    proof {
        assert(f.children@.take(n as int) =~= f.children@);
    }
}

impl MetricsRegistry {
    /// Renders the full current state of every family and of the counter.
    #[verifier::rlimit(30)]
    pub fn render(&self) -> (r: String)
        requires
            self.wf(),
        ensures
            r@ == registry_expo(*self),
    {
        let mut out = String::new();
        append_family(&mut out, &self.new_order);
        append_family(&mut out, &self.modify);
        append_family(&mut out, &self.cancel);
        append_family(&mut out, &self.depth);
        out.append("# HELP request_counter total no of requests\n");
        out.append("# TYPE request_counter counter\n");
        out.append("request_counter ");
        append_u64(&mut out, self.request_counter);
        push_char(&mut out, '\n');
        proof {
            assert(out@ =~= registry_expo(*self));
        }
        out
    }
}

} // verus!
