//! AWS compute resources: EC2 instances, key pairs, autoscaling groups.
use vstd::prelude::*;

use crate::migration::types::{
    cat3, cat5, new_result, note, push_note, result_model, strs_view, MigrationResult,
    MigrationStatus, ResultModel,
};
use crate::terraform::types::TerraformResource;
use crate::text::{
    before_char, before_char_v, chars_of, contains, contains_str, eq_str, find, find_char_from,
    has_char, lines, lines_v, push_range, push_str, push_vec, replace_char, replace_char_v,
    seq_eq, slice_of, starts_with, starts_with_exec, string_of, trim, trim_char, trim_char_v,
    trim_start, trim_start_v, trim_v, views, matches_at, lemma_find_from_bounds,
};

verus! {

pub open spec fn spec_aws_instance_plan(instance_type: Seq<char>) -> Option<Seq<char>> {
    if instance_type == "t2.micro"@ || instance_type == "t3.micro"@ {
        Some("1xCPU-1GB"@)
    } else if instance_type == "t2.small"@ || instance_type == "t3.small"@ {
        Some("1xCPU-2GB"@)
    } else if instance_type == "t2.medium"@ || instance_type == "t3.medium"@ {
        Some("2xCPU-4GB"@)
    } else if instance_type == "t2.large"@ || instance_type == "t3.large"@ {
        Some("2xCPU-8GB"@)
    } else if instance_type == "t2.xlarge"@ || instance_type == "t3.xlarge"@ {
        Some("4xCPU-8GB"@)
    } else if instance_type == "t2.2xlarge"@ || instance_type == "t3.2xlarge"@ {
        Some("6xCPU-16GB"@)
    } else if instance_type == "m5.large"@ || instance_type == "m5.xlarge"@ {
        Some("4xCPU-8GB"@)
    } else if instance_type == "m5.2xlarge"@ {
        Some("6xCPU-16GB"@)
    } else if instance_type == "c5.large"@ || instance_type == "c5.xlarge"@ {
        Some("4xCPU-8GB"@)
    } else {
        None
    }
}

/// Map instance_type (e.g. t3.micro) → UpCloud plan slug. Returns None for unknown types.
pub fn aws_instance_type_to_upcloud_plan(instance_type: &str) -> (r: Option<&'static str>)
    ensures
        r matches Some(x) ==> spec_aws_instance_plan(instance_type@) == Some(x@),
        r is None ==> spec_aws_instance_plan(instance_type@) is None,
{
    let v = chars_of(instance_type);
    if eq_str(&v, "t2.micro") || eq_str(&v, "t3.micro") {
        Some("1xCPU-1GB")
    } else if eq_str(&v, "t2.small") || eq_str(&v, "t3.small") {
        Some("1xCPU-2GB")
    } else if eq_str(&v, "t2.medium") || eq_str(&v, "t3.medium") {
        Some("2xCPU-4GB")
    } else if eq_str(&v, "t2.large") || eq_str(&v, "t3.large") {
        Some("2xCPU-8GB")
    } else if eq_str(&v, "t2.xlarge") || eq_str(&v, "t3.xlarge") {
        Some("4xCPU-8GB")
    } else if eq_str(&v, "t2.2xlarge") || eq_str(&v, "t3.2xlarge") {
        Some("6xCPU-16GB")
    } else if eq_str(&v, "m5.large") || eq_str(&v, "m5.xlarge") {
        Some("4xCPU-8GB")
    } else if eq_str(&v, "m5.2xlarge") {
        Some("6xCPU-16GB")
    } else if eq_str(&v, "c5.large") || eq_str(&v, "c5.xlarge") {
        Some("4xCPU-8GB")
    } else {
        None
    }
}

pub open spec fn spec_aws_zone_default(region: Seq<char>) -> Seq<char> {
    if region == "us-east-1"@ || region == "us-east-2"@ {
        "us-nyc1"@
    } else if region == "us-west-1"@ || region == "us-west-2"@ {
        "us-chi1"@
    } else if region == "eu-west-1"@ || region == "eu-west-2"@ || region == "eu-west-3"@ {
        "de-fra1"@
    } else if region == "eu-central-1"@ {
        "de-fra1"@
    } else if region == "ap-southeast-1"@ || region == "ap-southeast-2"@ {
        "sg-sin1"@
    } else if region == "ap-northeast-1"@ {
        "sg-sin1"@
    } else {
        "__ZONE__"@
    }
}

/// Map an AWS region to an UpCloud zone, `__ZONE__` when unknown.
fn map_region(region: &str) -> (r: &'static str)
    ensures
        r@ == spec_aws_zone_default(region@),
{
    let v = chars_of(region);
    if eq_str(&v, "us-east-1") || eq_str(&v, "us-east-2") {
        "us-nyc1"
    } else if eq_str(&v, "us-west-1") || eq_str(&v, "us-west-2") {
        "us-chi1"
    } else if eq_str(&v, "eu-west-1") || eq_str(&v, "eu-west-2") || eq_str(&v, "eu-west-3") {
        "de-fra1"
    } else if eq_str(&v, "eu-central-1") {
        "de-fra1"
    } else if eq_str(&v, "ap-southeast-1") || eq_str(&v, "ap-southeast-2") {
        "sg-sin1"
    } else if eq_str(&v, "ap-northeast-1") {
        "sg-sin1"
    } else {
        "__ZONE__"
    }
}

pub open spec fn spec_map_instance_type(instance_type: Seq<char>) -> Seq<char> {
    match spec_aws_instance_plan(instance_type) {
        Some(p) => p,
        None => "2xCPU-4GB"@,
    }
}

/// Map instance_type (e.g. t3.micro) → UpCloud plan slug, `2xCPU-4GB` when unknown.
fn map_instance_type(instance_type: &str) -> (r: &'static str)
    ensures
        r@ == spec_map_instance_type(instance_type@),
{
    match aws_instance_type_to_upcloud_plan(instance_type) {
        Some(p) => p,
        None => "2xCPU-4GB",
    }
}

pub open spec fn spec_is_tf_expr(s: Seq<char>) -> bool {
    starts_with(s, "var."@) || starts_with(s, "${"@) || starts_with(s, "local."@)
}

/// Returns true when `instance_type` is a Terraform variable/expression rather than a literal.
fn is_instance_type_expression(s: &str) -> (r: bool)
    ensures
        r == spec_is_tf_expr(s@),
{
    let v = chars_of(s);
    starts_with_exec(&v, "var.") || starts_with_exec(&v, "${") || starts_with_exec(&v, "local.")
}


/// Number of leading spaces and tabs.
pub open spec fn ws_len(s: Seq<char>) -> nat
    decreases s.len(),
{
    if s.len() > 0 && (s[0] == ' ' || s[0] == '\t') {
        1 + ws_len(s.drop_first())
    } else {
        0
    }
}

pub proof fn lemma_ws_len_bound(s: Seq<char>)
    ensures
        ws_len(s) <= s.len(),
    decreases s.len(),
{
    if s.len() > 0 && (s[0] == ' ' || s[0] == '\t') {
        lemma_ws_len_bound(s.drop_first());
    }
}

fn ws_len_exec(s: &Vec<char>) -> (r: usize)
    ensures
        r == ws_len(s@),
        r <= s@.len(),
{
    let mut i: usize = 0;
    assert(s@.skip(0) =~= s@);
    while i < s.len() && (s[i] == ' ' || s[i] == '\t')
        invariant
            i <= s@.len(),
            ws_len(s@) == i + ws_len(s@.skip(i as int)),
        decreases s@.len() - i,
    {
        assert(s@.skip(i as int).drop_first() =~= s@.skip(i + 1));
        i += 1;
    }
    assert(i < s@.len() ==> s@.skip(i as int)[0] == s@[i as int]);
    i
}

/// The last index below `n` whose line, trimmed, is `marker`.
pub open spec fn last_marker(ls: Seq<Seq<char>>, marker: Seq<char>, n: int) -> Option<int>
    decreases n,
{
    if n <= 0 {
        None
    } else if trim(ls[n - 1]) == marker {
        Some(n - 1)
    } else {
        last_marker(ls, marker, n - 1)
    }
}

pub proof fn lemma_last_marker_bounds(ls: Seq<Seq<char>>, marker: Seq<char>, n: int)
    ensures
        last_marker(ls, marker, n) matches Some(i) ==> 0 <= i < n,
    decreases n,
{
    if n > 0 && trim(ls[n - 1]) != marker {
        lemma_last_marker_bounds(ls, marker, n - 1);
    }
}

/// The indentation of the first line that is not blank, or 0.
pub open spec fn first_indent(ls: Seq<Seq<char>>) -> nat
    decreases ls.len(),
{
    if ls.len() == 0 {
        0
    } else if trim(ls[0]).len() > 0 {
        ws_len(ls[0])
    } else {
        first_indent(ls.drop_first())
    }
}

/// The body lines with up to `mi` leading blanks removed; blank lines become empty.
pub open spec fn dedent_body(ls: Seq<Seq<char>>, mi: nat) -> Seq<char>
    decreases ls.len(),
{
    if ls.len() == 0 {
        seq![]
    } else {
        let l = ls.last();
        dedent_body(ls.drop_last(), mi) + if trim(l).len() == 0 {
            seq!['\n']
        } else {
            l.skip((if ws_len(l) < mi { ws_len(l) } else { mi }) as int) + seq!['\n']
        }
    }
}

/// A heredoc value re-indented as a `<<-` heredoc, so that it may sit indented in
/// the generated resource; any other value, or one already flush left, unchanged.
pub open spec fn spec_normalize_heredoc(value: Seq<char>) -> Seq<char> {
    let trimmed = trim_start(value);
    if !starts_with(trimmed, "<<"@) {
        value
    } else {
        let strip = starts_with(trimmed, "<<-"@);
        let rest = if strip { trimmed.skip(3) } else { trimmed.skip(2) };
        match find(rest, seq!['\n']) {
            None => value,
            Some(nl) => {
                let marker = trim(rest.take(nl));
                if marker.len() == 0 {
                    value
                } else {
                    let ls = lines(rest.skip(nl + 1));
                    match last_marker(ls, marker, ls.len() as int) {
                        None => value,
                        Some(ci) => {
                            let content = ls.take(ci);
                            let mi = first_indent(content);
                            let ci_ws = ws_len(ls[ci]);
                            if strip && mi == 0 && ci_ws == 0 {
                                value
                            } else if !strip && mi == 0 {
                                value
                            } else {
                                "<<-"@ + marker + "\n"@ + dedent_body(content, mi) + marker
                            }
                        },
                    }
                }
            },
        }
    }
}

/// Re-indent a heredoc so that it can be nested in the server resource.
pub fn normalize_heredoc(value: &str) -> (r: String)
    ensures
        r@ == spec_normalize_heredoc(value@),
{
    let v = chars_of(value);
    let trimmed = trim_start_v(&v);
    proof {
        reveal_strlit("<<");
        reveal_strlit("<<-");
    }
    if !starts_with_exec(&trimmed, "<<") {
        return String::from_str(value);
    }
    let strip = starts_with_exec(&trimmed, "<<-");
    let tn = trimmed.len();
    let rest = if strip {
        slice_of(&trimmed, 3, tn)
    } else {
        slice_of(&trimmed, 2, tn)
    };
    assert(rest@ =~= if strip { trimmed@.skip(3) } else { trimmed@.skip(2) });
    let rn = rest.len();
    let nl = match find_char_from(&rest, '\n', 0) {
        None => {
            assert(rest@.skip(0) =~= rest@);
            return String::from_str(value);
        },
        Some(k) => k,
    };
    assert(rest@.skip(0) =~= rest@);
    let head = slice_of(&rest, 0, nl);
    assert(head@ =~= rest@.take(nl as int));
    let marker = trim_v(&head);
    if marker.len() == 0 {
        return String::from_str(value);
    }
    let after = slice_of(&rest, nl + 1, rn);
    assert(after@ =~= rest@.skip(nl + 1));
    let ls = lines_v(&after);
    let ghost lv = views(ls@);
    // last line that closes the heredoc
    let mut j = ls.len();
    while j > 0 && !seq_eq(&trim_v(&ls[j - 1]), &marker)
        invariant
            j <= ls@.len(),
            lv == views(ls@),
            last_marker(lv, marker@, ls@.len() as int) == last_marker(lv, marker@, j as int),
        decreases j,
    {
        assert(lv[j - 1] == ls@[j - 1]@);
        j -= 1;
    }
    if j == 0 {
        return String::from_str(value);
    }
    assert(lv[j - 1] == ls@[j - 1]@);
    let ci = j - 1;
    // indentation of the first non-blank body line
    let mut k: usize = 0;
    assert(lv.take(ci as int).skip(0) =~= lv.take(ci as int));
    while k < ci && trim_v(&ls[k]).len() == 0
        invariant
            k <= ci < ls@.len(),
            lv == views(ls@),
            first_indent(lv.take(ci as int)) == first_indent(lv.take(ci as int).skip(k as int)),
        decreases ci - k,
    {
        assert(lv.take(ci as int).skip(k as int)[0] == ls@[k as int]@);
        assert(lv.take(ci as int).skip(k as int).drop_first() =~= lv.take(ci as int).skip(k + 1));
        k += 1;
    }
    let mi = if k < ci {
        assert(lv.take(ci as int).skip(k as int)[0] == ls@[k as int]@);
        ws_len_exec(&ls[k])
    } else {
        assert(lv.take(ci as int).skip(k as int) =~= Seq::<Seq<char>>::empty());
        0
    };
    let ci_ws = ws_len_exec(&ls[ci]);
    if strip && mi == 0 && ci_ws == 0 {
        return String::from_str(value);
    }
    if !strip && mi == 0 {
        return String::from_str(value);
    }
    let mut out = String::from_str("<<-");
    push_vec(&mut out, &marker);
    push_str(&mut out, "\n");
    let ghost base = out@;
    let mut t: usize = 0;
    assert(lv.take(ci as int).take(0) =~= Seq::<Seq<char>>::empty());
    while t < ci
        invariant
            t <= ci < ls@.len(),
            lv == views(ls@),
            out@ == base + dedent_body(lv.take(ci as int).take(t as int), mi as nat),
        decreases ci - t,
    {
        let ghost c = lv.take(ci as int);
        proof {
            reveal_strlit("\n");
        }
        assert(c.take(t + 1).drop_last() =~= c.take(t as int));
        assert(c.take(t + 1).last() == ls@[t as int]@);
        let line = &ls[t];
        if trim_v(line).len() == 0 {
            push_str(&mut out, "\n");
        } else {
            let w = ws_len_exec(line);
            let strip_n = if w < mi { w } else { mi };
            let ln = line.len();
            push_range(&mut out, line, strip_n, ln);
            assert(line@.subrange(strip_n as int, ln as int) =~= line@.skip(strip_n as int));
            push_str(&mut out, "\n");
        }
        t += 1;
    }
    assert(lv.take(ci as int).take(ci as int) =~= lv.take(ci as int));
    push_vec(&mut out, &marker);
    out
}

pub open spec fn spec_ec2_server_hcl(name: Seq<char>, count_line: Seq<char>, zone: Seq<char>, plan_line: Seq<char>, metadata: Seq<char>, login: Seq<char>, tags: Seq<char>, user_data: Seq<char>) -> Seq<char> {
    "resource \"upcloud_server\" \""@
        + name
        + "\" {\n"@
        + count_line
        + "  zone     = \""@
        + zone
        + "\"\n"@
        + plan_line
        + "  firewall = true"@
        + metadata
        + "\n\n  template {\n    storage = \"Ubuntu Server 24.04 LTS (Noble Numbat)\"\n    size    = 50\n  }\n\n  network_interface {\n    type = \"public\"\n  }\n\n  network_interface {\n    type    = \"private\"\n    network = \"<TODO: upcloud_network reference>\"\n  }"@
        + login
        + "  labels = {\n    Name = \""@
        + tags
        + "\"\n  }"@
        + user_data
        + "\n}\n"@
}

/// The `upcloud_server` resource of an EC2 instance.
fn ec2_server_hcl(name: &str, count_line: &str, zone: &str, plan_line: &str, metadata: &str, login: &str, tags: &str, user_data: &str) -> (r: String)
    ensures
        r@ == spec_ec2_server_hcl(name@, count_line@, zone@, plan_line@, metadata@, login@, tags@, user_data@),
{
    let mut s = String::new();
    push_str(&mut s, "resource \"upcloud_server\" \"");
    push_str(&mut s, name);
    push_str(&mut s, "\" {\n");
    push_str(&mut s, count_line);
    push_str(&mut s, "  zone     = \"");
    push_str(&mut s, zone);
    push_str(&mut s, "\"\n");
    push_str(&mut s, plan_line);
    push_str(&mut s, "  firewall = true");
    push_str(&mut s, metadata);
    push_str(&mut s, "\n\n  template {\n    storage = \"Ubuntu Server 24.04 LTS (Noble Numbat)\"\n    size    = 50\n  }\n\n  network_interface {\n    type = \"public\"\n  }\n\n  network_interface {\n    type    = \"private\"\n    network = \"<TODO: upcloud_network reference>\"\n  }");
    push_str(&mut s, login);
    push_str(&mut s, "  labels = {\n    Name = \"");
    push_str(&mut s, tags);
    push_str(&mut s, "\"\n  }");
    push_str(&mut s, user_data);
    push_str(&mut s, "\n}\n");
    s
}


/// The key pair a `key_name` names: `aws_key_pair.NAME...` gives `NAME`, any other
/// value is taken as it is (quotes trimmed).
pub open spec fn key_ref_of(v: Seq<char>) -> Seq<char> {
    let t = trim_char(v, '"');
    if starts_with(t, "aws_key_pair."@) {
        before_char(t.skip(13), '.')
    } else {
        t
    }
}

fn key_ref_exec(v: &Vec<char>) -> (r: Vec<char>)
    ensures
        r@ == key_ref_of(v@),
{
    let t = trim_char_v(v, '"');
    proof {
        reveal_strlit("aws_key_pair.");
    }
    if starts_with_exec(&t, "aws_key_pair.") {
        let n = t.len();
        let rest = slice_of(&t, 13, n);
        assert(rest@ =~= t@.skip(13));
        before_char_v(&rest, '.')
    } else {
        t
    }
}

pub open spec fn login_block(key: Option<Seq<char>>) -> Seq<char> {
    match key {
        Some(k) => "\n  login {\n    user = \"root\"\n    keys = [\"<TODO: SSH public key for aws_key_pair."@ + k + ">\"]\n  }\n"@,
        None => "\n  login {\n    user = \"root\"\n    keys = [\"<TODO: paste SSH public key>\"]\n  }\n"@,
    }
}

/// The notes about a `user_data` value.
pub open spec fn user_data_notes(ud: Seq<char>) -> Seq<Seq<char>> {
    let n0 = seq!["user_data propagated — review AWS-specific refs (IPs, metadata)."@];
    let n1 = if contains(ud, "base64encode("@) {
        n0.push("user_data: remove base64encode() — UpCloud cloud-init expects plain text."@)
    } else {
        n0
    };
    if contains(ud, "templatefile("@) {
        n1.push("user_data uses templatefile() — review vars for AWS-specific refs."@)
    } else if starts_with(trim_start(ud), "file("@) || contains(ud, " file("@) {
        n1.push("user_data is an external file — not scanned for AWS refs."@)
    } else {
        n1
    }
}

pub open spec fn spec_map_instance(res: TerraformResource) -> ResultModel {
    let it = res.attr_trim_or("instance_type"@, "t3.micro"@);
    let is_expr = spec_is_tf_expr(it);
    let plan = if is_expr { seq![] } else { spec_map_instance_type(it) };
    let zone = match res.attr_trim("availability_zone"@) {
        Some(az) => spec_aws_zone_default(az),
        None => "__ZONE__"@,
    };
    let hostname = replace_char(res.name@, '_', "-"@);
    let tags = res.attr_trim_or("tags.Name"@, hostname);
    let key = match res.attr("key_name"@) {
        Some(v) => Some(key_ref_of(v)),
        None => None,
    };
    let count = res.attr_trim("count"@);
    let count_line = match count {
        Some(n) => "  count    = "@ + n + "\n  hostname = \""@ + hostname + "-${count.index + 1}\"\n"@,
        None => "  hostname = \""@ + hostname + "\"\n"@,
    };
    let ud = res.attr("user_data"@);
    let user_data_line = match ud {
        Some(v) => "\n  user_data = "@ + spec_normalize_heredoc(v),
        None => seq![],
    };
    let metadata = if ud is Some { "\n  metadata  = true"@ } else { seq![] };
    let plan_line = if is_expr {
        "  plan     = "@ + it + "\n"@
    } else {
        "  plan     = \""@ + plan + "\"\n"@
    };
    let hcl = spec_ec2_server_hcl(res.name@, count_line, zone, plan_line, metadata, login_block(key), tags, user_data_line);
    let n0 = if is_expr {
        "instance_type '"@ + it + "' is a variable — update its default in variables.tf to an UpCloud plan."@
    } else {
        "instance_type '"@ + it + "' → plan '"@ + plan + "'"@
    };
    let notes1 = seq![n0, "AMI → Ubuntu 24.04 LTS (update if needed: upctl storage list --public --template)"@];
    let notes2 = match count {
        Some(n) => notes1.push("count = "@ + n + " propagated."@),
        None => notes1,
    };
    let notes3 = if key is Some {
        notes2.push("SSH key auto-resolved from aws_key_pair."@)
    } else {
        notes2.push("login block added — paste your SSH public key."@)
    };
    let notes4 = notes3.push("Private network auto-resolved from subnet."@);
    let notes = match ud {
        Some(v) => notes4 + user_data_notes(v),
        None => notes4,
    };
    result_model(res, MigrationStatus::Native, "upcloud_server"@, Some(hcl), None, None, notes)
}

fn push_user_data_notes(notes: &mut Vec<String>, ud: &Vec<char>)
    ensures
        strs_view(final(notes)@) == strs_view(old(notes)@) + user_data_notes(ud@),
{
    let ghost start = strs_view(notes@);
    push_note(notes, String::from_str("user_data propagated — review AWS-specific refs (IPs, metadata)."));
    if contains_str(ud, "base64encode(") {
        push_note(notes, String::from_str("user_data: remove base64encode() — UpCloud cloud-init expects plain text."));
    }
    if contains_str(ud, "templatefile(") {
        push_note(notes, String::from_str("user_data uses templatefile() — review vars for AWS-specific refs."));
    } else if starts_with_exec(&trim_start_v(ud), "file(") || contains_str(ud, " file(") {
        push_note(notes, String::from_str("user_data is an external file — not scanned for AWS refs."));
    }
    assert(strs_view(notes@) =~= start + user_data_notes(ud@));
}

/// `aws_instance` → `upcloud_server`: plan from the instance type (kept as an
/// expression when it is one), hostname from the name, count, login key, labels and
/// user data carried over, and notes on what to review.
pub fn map_instance(res: &TerraformResource) -> (r: MigrationResult)
    ensures
        r@ == spec_map_instance(*res),
{
    let itv = res.trimmed_or("instance_type", "t3.micro");
    let it = string_of(&itv);
    let is_expr = is_instance_type_expression(it.as_str());
    let plan: &str = if is_expr { "" } else { map_instance_type(it.as_str()) };
    proof {
        reveal_strlit("");
    }
    let zone: &str = match res.get_trimmed("availability_zone") {
        Some(az) => map_region(string_of(&az).as_str()),
        None => "__ZONE__",
    };
    let hostname = string_of(&replace_char_v(&chars_of(res.name.as_str()), '_', "-"));
    let tags = match res.get_trimmed("tags.Name") {
        Some(t) => string_of(&t),
        None => hostname.clone(),
    };
    let key = match res.get_attr("key_name") {
        Some(v) => Some(key_ref_exec(&v)),
        None => None,
    };
    let login = match &key {
        Some(k) => {
            let mut s = String::from_str("\n  login {\n    user = \"root\"\n    keys = [\"<TODO: SSH public key for aws_key_pair.");
            push_vec(&mut s, k);
            push_str(&mut s, ">\"]\n  }\n");
            s
        },
        None => String::from_str("\n  login {\n    user = \"root\"\n    keys = [\"<TODO: paste SSH public key>\"]\n  }\n"),
    };
    let count = res.get_trimmed("count");
    let count_line = match &count {
        Some(n) => {
            let mut s = String::from_str("  count    = ");
            push_vec(&mut s, n);
            push_str(&mut s, "\n  hostname = \"");
            push_str(&mut s, hostname.as_str());
            push_str(&mut s, "-${count.index + 1}\"\n");
            s
        },
        None => cat3("  hostname = \"", hostname.as_str(), "\"\n"),
    };
    let ud = res.get_attr("user_data");
    let user_data_line = match &ud {
        Some(v) => {
            let mut s = String::from_str("\n  user_data = ");
            push_str(&mut s, normalize_heredoc(string_of(v).as_str()).as_str());
            s
        },
        None => String::new(),
    };
    let metadata: &str = if ud.is_some() { "\n  metadata  = true" } else { "" };
    let plan_line = if is_expr {
        cat3("  plan     = ", it.as_str(), "\n")
    } else {
        cat3("  plan     = \"", plan, "\"\n")
    };
    let hcl = ec2_server_hcl(res.name.as_str(), count_line.as_str(), zone, plan_line.as_str(), metadata, login.as_str(), tags.as_str(), user_data_line.as_str());
    let n0 = if is_expr {
        cat3("instance_type '", it.as_str(), "' is a variable — update its default in variables.tf to an UpCloud plan.")
    } else {
        cat5("instance_type '", it.as_str(), "' → plan '", plan, "'")
    };
    let mut notes: Vec<String> = Vec::new();
    push_note(&mut notes, n0);
    push_note(&mut notes, String::from_str("AMI → Ubuntu 24.04 LTS (update if needed: upctl storage list --public --template)"));
    match &count {
        Some(n) => push_note(&mut notes, cat3("count = ", string_of(n).as_str(), " propagated.")),
        None => {},
    }
    if key.is_some() {
        push_note(&mut notes, String::from_str("SSH key auto-resolved from aws_key_pair."));
    } else {
        push_note(&mut notes, String::from_str("login block added — paste your SSH public key."));
    }
    push_note(&mut notes, String::from_str("Private network auto-resolved from subnet."));
    match &ud {
        Some(v) => push_user_data_notes(&mut notes, v),
        None => {},
    }
    new_result(res, MigrationStatus::Native, "upcloud_server", Some(hcl), None, None, notes)
}

/// The public key of a key pair with one pair of surrounding quotes removed.
pub open spec fn unquote(v: Seq<char>) -> Seq<char> {
    if v.len() >= 2 && v[0] == '"' && v.last() == '"' {
        v.subrange(1, v.len() - 1)
    } else {
        v
    }
}

/// [`unquote`] on buffers.
pub fn unquote_exec(v: &Vec<char>) -> (r: Vec<char>)
    ensures
        r@ == unquote(v@),
{
    let n = v.len();
    if n >= 2 && v[0] == '"' && v[n - 1] == '"' {
        slice_of(v, 1, n - 1)
    } else {
        slice_of(v, 0, n)
    }
}

pub open spec fn spec_map_key_pair(res: TerraformResource) -> ResultModel {
    let key = match res.attr("public_key"@) {
        Some(v) => unquote(v),
        None => "<TODO: paste SSH public key>"@,
    };
    let is_expression = !starts_with(key, "ssh-"@) && !starts_with(key, "ecdsa-"@) && !starts_with(key, "sk-"@)
        && (contains(key, "var."@) || contains(key, "${"@) || key.contains('?'));
    let snippet = if is_expression {
        "login {\n  user = \"root\"\n  keys = ["@ + key + "]  # was aws_key_pair."@ + res.name@ + "\n}"@
    } else {
        "login {\n  user = \"root\"\n  keys = [\""@ + key + "\"]  # was aws_key_pair."@ + res.name@ + "\n}"@
    };
    result_model(
        res,
        MigrationStatus::Partial,
        "login block (server resource)"@,
        None,
        Some(snippet),
        None,
        seq![
            "AWS key pairs → UpCloud login block inside upcloud_server — not a standalone resource."@,
            "SSH key auto-resolved into server login blocks by the generator."@,
        ],
    )
}

/// `aws_key_pair` → a `login` block for the servers; an expression key is written
/// unquoted.
pub fn map_key_pair(res: &TerraformResource) -> (r: MigrationResult)
    ensures
        r@ == spec_map_key_pair(*res),
{
    let key = match res.get_attr("public_key") {
        Some(v) => {
            let n = v.len();
            if n >= 2 && v[0] == '"' && v[n - 1] == '"' {
                slice_of(&v, 1, n - 1)
            } else {
                v
            }
        },
        None => chars_of("<TODO: paste SSH public key>"),
    };
    let is_expression = !starts_with_exec(&key, "ssh-") && !starts_with_exec(&key, "ecdsa-")
        && !starts_with_exec(&key, "sk-") && (contains_str(&key, "var.") || contains_str(&key, "${")
        || has_char(&key, '?'));
    let ks = string_of(&key);
    let snippet = if is_expression {
        let mut s = cat3("login {\n  user = \"root\"\n  keys = [", ks.as_str(), "]  # was aws_key_pair.");
        push_str(&mut s, res.name.as_str());
        push_str(&mut s, "\n}");
        s
    } else {
        let mut s = cat3("login {\n  user = \"root\"\n  keys = [\"", ks.as_str(), "\"]  # was aws_key_pair.");
        push_str(&mut s, res.name.as_str());
        push_str(&mut s, "\n}");
        s
    };
    let mut notes = note("AWS key pairs → UpCloud login block inside upcloud_server — not a standalone resource.");
    push_note(&mut notes, String::from_str("SSH key auto-resolved into server login blocks by the generator."));
    new_result(res, MigrationStatus::Partial, "login block (server resource)", None, Some(snippet), None, notes)
}

pub open spec fn spec_map_autoscaling_group(res: TerraformResource) -> ResultModel {
    result_model(
        res,
        MigrationStatus::Unsupported,
        "(no autoscaling)"@,
        None,
        None,
        None,
        seq!["UpCloud does not have a managed autoscaling group equivalent. Use multiple upcloud_server resources."@],
    )
}

/// `aws_autoscaling_group`: no managed equivalent.
pub fn map_autoscaling_group(res: &TerraformResource) -> (r: MigrationResult)
    ensures
        r@ == spec_map_autoscaling_group(*res),
{
    new_result(
        res,
        MigrationStatus::Unsupported,
        "(no autoscaling)",
        None,
        None,
        None,
        note("UpCloud does not have a managed autoscaling group equivalent. Use multiple upcloud_server resources."),
    )
}

/// The EC2 instance types with an UpCloud plan, and their plans: each general-purpose
/// `t2`/`t3` size maps to the plan of its vCPU and memory class (`xlarge`, 4 vCPU, to
/// `4xCPU-8GB`), `m5`/`c5` sizes to the next plan up; no other type has one.
pub proof fn ec2_plan_table(t: Seq<char>)
    ensures
        spec_aws_instance_plan("t2.micro"@) == Some("1xCPU-1GB"@),
        spec_aws_instance_plan("t3.micro"@) == Some("1xCPU-1GB"@),
        spec_aws_instance_plan("t2.small"@) == Some("1xCPU-2GB"@),
        spec_aws_instance_plan("t3.small"@) == Some("1xCPU-2GB"@),
        spec_aws_instance_plan("t2.medium"@) == Some("2xCPU-4GB"@),
        spec_aws_instance_plan("t3.medium"@) == Some("2xCPU-4GB"@),
        spec_aws_instance_plan("t2.large"@) == Some("2xCPU-8GB"@),
        spec_aws_instance_plan("t3.large"@) == Some("2xCPU-8GB"@),
        spec_aws_instance_plan("t2.xlarge"@) == Some("4xCPU-8GB"@),
        spec_aws_instance_plan("t3.xlarge"@) == Some("4xCPU-8GB"@),
        spec_aws_instance_plan("t2.2xlarge"@) == Some("6xCPU-16GB"@),
        spec_aws_instance_plan("t3.2xlarge"@) == Some("6xCPU-16GB"@),
        spec_aws_instance_plan("m5.large"@) == Some("4xCPU-8GB"@),
        spec_aws_instance_plan("m5.xlarge"@) == Some("4xCPU-8GB"@),
        spec_aws_instance_plan("m5.2xlarge"@) == Some("6xCPU-16GB"@),
        spec_aws_instance_plan("c5.large"@) == Some("4xCPU-8GB"@),
        spec_aws_instance_plan("c5.xlarge"@) == Some("4xCPU-8GB"@),
        spec_aws_instance_plan(t) is Some ==> (t == "t2.micro"@ || t == "t3.micro"@ || t == "t2.small"@ || t == "t3.small"@ || t == "t2.medium"@ || t == "t3.medium"@ || t == "t2.large"@ || t == "t3.large"@ || t == "t2.xlarge"@ || t == "t3.xlarge"@ || t == "t2.2xlarge"@ || t == "t3.2xlarge"@ || t == "m5.large"@ || t == "m5.xlarge"@ || t == "m5.2xlarge"@ || t == "c5.large"@ || t == "c5.xlarge"@),
{
    reveal_strlit("t2.micro");
    assert("t2.micro"@[0] == 't');
    assert("t2.micro"@[1] == '2');
    assert("t2.micro"@[2] == '.');
    assert("t2.micro"@[3] == 'm');
    assert("t2.micro"@[4] == 'i');
    assert("t2.micro"@[5] == 'c');
    assert("t2.micro"@[6] == 'r');
    assert("t2.micro"@[7] == 'o');
    reveal_strlit("t3.micro");
    assert("t3.micro"@[0] == 't');
    assert("t3.micro"@[1] == '3');
    assert("t3.micro"@[2] == '.');
    assert("t3.micro"@[3] == 'm');
    assert("t3.micro"@[4] == 'i');
    assert("t3.micro"@[5] == 'c');
    assert("t3.micro"@[6] == 'r');
    assert("t3.micro"@[7] == 'o');
    reveal_strlit("t2.small");
    assert("t2.small"@[0] == 't');
    assert("t2.small"@[1] == '2');
    assert("t2.small"@[2] == '.');
    assert("t2.small"@[3] == 's');
    assert("t2.small"@[4] == 'm');
    assert("t2.small"@[5] == 'a');
    assert("t2.small"@[6] == 'l');
    assert("t2.small"@[7] == 'l');
    reveal_strlit("t3.small");
    assert("t3.small"@[0] == 't');
    assert("t3.small"@[1] == '3');
    assert("t3.small"@[2] == '.');
    assert("t3.small"@[3] == 's');
    assert("t3.small"@[4] == 'm');
    assert("t3.small"@[5] == 'a');
    assert("t3.small"@[6] == 'l');
    assert("t3.small"@[7] == 'l');
    reveal_strlit("t2.medium");
    assert("t2.medium"@[0] == 't');
    assert("t2.medium"@[1] == '2');
    assert("t2.medium"@[2] == '.');
    assert("t2.medium"@[3] == 'm');
    assert("t2.medium"@[4] == 'e');
    assert("t2.medium"@[5] == 'd');
    assert("t2.medium"@[6] == 'i');
    assert("t2.medium"@[7] == 'u');
    assert("t2.medium"@[8] == 'm');
    reveal_strlit("t3.medium");
    assert("t3.medium"@[0] == 't');
    assert("t3.medium"@[1] == '3');
    assert("t3.medium"@[2] == '.');
    assert("t3.medium"@[3] == 'm');
    assert("t3.medium"@[4] == 'e');
    assert("t3.medium"@[5] == 'd');
    assert("t3.medium"@[6] == 'i');
    assert("t3.medium"@[7] == 'u');
    assert("t3.medium"@[8] == 'm');
    reveal_strlit("t2.large");
    assert("t2.large"@[0] == 't');
    assert("t2.large"@[1] == '2');
    assert("t2.large"@[2] == '.');
    assert("t2.large"@[3] == 'l');
    assert("t2.large"@[4] == 'a');
    assert("t2.large"@[5] == 'r');
    assert("t2.large"@[6] == 'g');
    assert("t2.large"@[7] == 'e');
    reveal_strlit("t3.large");
    assert("t3.large"@[0] == 't');
    assert("t3.large"@[1] == '3');
    assert("t3.large"@[2] == '.');
    assert("t3.large"@[3] == 'l');
    assert("t3.large"@[4] == 'a');
    assert("t3.large"@[5] == 'r');
    assert("t3.large"@[6] == 'g');
    assert("t3.large"@[7] == 'e');
    reveal_strlit("t2.xlarge");
    assert("t2.xlarge"@[0] == 't');
    assert("t2.xlarge"@[1] == '2');
    assert("t2.xlarge"@[2] == '.');
    assert("t2.xlarge"@[3] == 'x');
    assert("t2.xlarge"@[4] == 'l');
    assert("t2.xlarge"@[5] == 'a');
    assert("t2.xlarge"@[6] == 'r');
    assert("t2.xlarge"@[7] == 'g');
    assert("t2.xlarge"@[8] == 'e');
    reveal_strlit("t3.xlarge");
    assert("t3.xlarge"@[0] == 't');
    assert("t3.xlarge"@[1] == '3');
    assert("t3.xlarge"@[2] == '.');
    assert("t3.xlarge"@[3] == 'x');
    assert("t3.xlarge"@[4] == 'l');
    assert("t3.xlarge"@[5] == 'a');
    assert("t3.xlarge"@[6] == 'r');
    assert("t3.xlarge"@[7] == 'g');
    assert("t3.xlarge"@[8] == 'e');
    reveal_strlit("t2.2xlarge");
    assert("t2.2xlarge"@[0] == 't');
    assert("t2.2xlarge"@[1] == '2');
    assert("t2.2xlarge"@[2] == '.');
    assert("t2.2xlarge"@[3] == '2');
    assert("t2.2xlarge"@[4] == 'x');
    assert("t2.2xlarge"@[5] == 'l');
    assert("t2.2xlarge"@[6] == 'a');
    assert("t2.2xlarge"@[7] == 'r');
    assert("t2.2xlarge"@[8] == 'g');
    assert("t2.2xlarge"@[9] == 'e');
    reveal_strlit("t3.2xlarge");
    assert("t3.2xlarge"@[0] == 't');
    assert("t3.2xlarge"@[1] == '3');
    assert("t3.2xlarge"@[2] == '.');
    assert("t3.2xlarge"@[3] == '2');
    assert("t3.2xlarge"@[4] == 'x');
    assert("t3.2xlarge"@[5] == 'l');
    assert("t3.2xlarge"@[6] == 'a');
    assert("t3.2xlarge"@[7] == 'r');
    assert("t3.2xlarge"@[8] == 'g');
    assert("t3.2xlarge"@[9] == 'e');
    reveal_strlit("m5.large");
    assert("m5.large"@[0] == 'm');
    assert("m5.large"@[1] == '5');
    assert("m5.large"@[2] == '.');
    assert("m5.large"@[3] == 'l');
    assert("m5.large"@[4] == 'a');
    assert("m5.large"@[5] == 'r');
    assert("m5.large"@[6] == 'g');
    assert("m5.large"@[7] == 'e');
    reveal_strlit("m5.xlarge");
    assert("m5.xlarge"@[0] == 'm');
    assert("m5.xlarge"@[1] == '5');
    assert("m5.xlarge"@[2] == '.');
    assert("m5.xlarge"@[3] == 'x');
    assert("m5.xlarge"@[4] == 'l');
    assert("m5.xlarge"@[5] == 'a');
    assert("m5.xlarge"@[6] == 'r');
    assert("m5.xlarge"@[7] == 'g');
    assert("m5.xlarge"@[8] == 'e');
    reveal_strlit("m5.2xlarge");
    assert("m5.2xlarge"@[0] == 'm');
    assert("m5.2xlarge"@[1] == '5');
    assert("m5.2xlarge"@[2] == '.');
    assert("m5.2xlarge"@[3] == '2');
    assert("m5.2xlarge"@[4] == 'x');
    assert("m5.2xlarge"@[5] == 'l');
    assert("m5.2xlarge"@[6] == 'a');
    assert("m5.2xlarge"@[7] == 'r');
    assert("m5.2xlarge"@[8] == 'g');
    assert("m5.2xlarge"@[9] == 'e');
    reveal_strlit("c5.large");
    assert("c5.large"@[0] == 'c');
    assert("c5.large"@[1] == '5');
    assert("c5.large"@[2] == '.');
    assert("c5.large"@[3] == 'l');
    assert("c5.large"@[4] == 'a');
    assert("c5.large"@[5] == 'r');
    assert("c5.large"@[6] == 'g');
    assert("c5.large"@[7] == 'e');
    reveal_strlit("c5.xlarge");
    assert("c5.xlarge"@[0] == 'c');
    assert("c5.xlarge"@[1] == '5');
    assert("c5.xlarge"@[2] == '.');
    assert("c5.xlarge"@[3] == 'x');
    assert("c5.xlarge"@[4] == 'l');
    assert("c5.xlarge"@[5] == 'a');
    assert("c5.xlarge"@[6] == 'r');
    assert("c5.xlarge"@[7] == 'g');
    assert("c5.xlarge"@[8] == 'e');
}

/// The zone written for an AWS provider region: the same zone as the region's variable
/// conversion for the regions listed, `__ZONE__` (left to fill in) for any other.
pub proof fn aws_zone_default_table(region: Seq<char>)
    ensures
        spec_aws_zone_default("us-east-1"@) == "us-nyc1"@,
        spec_aws_zone_default("us-east-2"@) == "us-nyc1"@,
        spec_aws_zone_default("us-west-1"@) == "us-chi1"@,
        spec_aws_zone_default("us-west-2"@) == "us-chi1"@,
        spec_aws_zone_default("eu-west-1"@) == "de-fra1"@,
        spec_aws_zone_default("eu-west-2"@) == "de-fra1"@,
        spec_aws_zone_default("eu-west-3"@) == "de-fra1"@,
        spec_aws_zone_default("eu-central-1"@) == "de-fra1"@,
        spec_aws_zone_default("ap-southeast-1"@) == "sg-sin1"@,
        spec_aws_zone_default("ap-southeast-2"@) == "sg-sin1"@,
        spec_aws_zone_default("ap-northeast-1"@) == "sg-sin1"@,
        !(region == "us-east-1"@ || region == "us-east-2"@ || region == "us-west-1"@ || region == "us-west-2"@ || region == "eu-west-1"@ || region == "eu-west-2"@ || region == "eu-west-3"@ || region == "eu-central-1"@ || region == "ap-southeast-1"@ || region == "ap-southeast-2"@ || region == "ap-northeast-1"@) ==> spec_aws_zone_default(region) == "__ZONE__"@,
{
    reveal_strlit("us-east-1");
    assert("us-east-1"@[0] == 'u');
    assert("us-east-1"@[1] == 's');
    assert("us-east-1"@[2] == '-');
    assert("us-east-1"@[3] == 'e');
    assert("us-east-1"@[4] == 'a');
    assert("us-east-1"@[5] == 's');
    assert("us-east-1"@[6] == 't');
    assert("us-east-1"@[7] == '-');
    assert("us-east-1"@[8] == '1');
    reveal_strlit("us-east-2");
    assert("us-east-2"@[0] == 'u');
    assert("us-east-2"@[1] == 's');
    assert("us-east-2"@[2] == '-');
    assert("us-east-2"@[3] == 'e');
    assert("us-east-2"@[4] == 'a');
    assert("us-east-2"@[5] == 's');
    assert("us-east-2"@[6] == 't');
    assert("us-east-2"@[7] == '-');
    assert("us-east-2"@[8] == '2');
    reveal_strlit("us-west-1");
    assert("us-west-1"@[0] == 'u');
    assert("us-west-1"@[1] == 's');
    assert("us-west-1"@[2] == '-');
    assert("us-west-1"@[3] == 'w');
    assert("us-west-1"@[4] == 'e');
    assert("us-west-1"@[5] == 's');
    assert("us-west-1"@[6] == 't');
    assert("us-west-1"@[7] == '-');
    assert("us-west-1"@[8] == '1');
    reveal_strlit("us-west-2");
    assert("us-west-2"@[0] == 'u');
    assert("us-west-2"@[1] == 's');
    assert("us-west-2"@[2] == '-');
    assert("us-west-2"@[3] == 'w');
    assert("us-west-2"@[4] == 'e');
    assert("us-west-2"@[5] == 's');
    assert("us-west-2"@[6] == 't');
    assert("us-west-2"@[7] == '-');
    assert("us-west-2"@[8] == '2');
    reveal_strlit("eu-west-1");
    assert("eu-west-1"@[0] == 'e');
    assert("eu-west-1"@[1] == 'u');
    assert("eu-west-1"@[2] == '-');
    assert("eu-west-1"@[3] == 'w');
    assert("eu-west-1"@[4] == 'e');
    assert("eu-west-1"@[5] == 's');
    assert("eu-west-1"@[6] == 't');
    assert("eu-west-1"@[7] == '-');
    assert("eu-west-1"@[8] == '1');
    reveal_strlit("eu-west-2");
    assert("eu-west-2"@[0] == 'e');
    assert("eu-west-2"@[1] == 'u');
    assert("eu-west-2"@[2] == '-');
    assert("eu-west-2"@[3] == 'w');
    assert("eu-west-2"@[4] == 'e');
    assert("eu-west-2"@[5] == 's');
    assert("eu-west-2"@[6] == 't');
    assert("eu-west-2"@[7] == '-');
    assert("eu-west-2"@[8] == '2');
    reveal_strlit("eu-west-3");
    assert("eu-west-3"@[0] == 'e');
    assert("eu-west-3"@[1] == 'u');
    assert("eu-west-3"@[2] == '-');
    assert("eu-west-3"@[3] == 'w');
    assert("eu-west-3"@[4] == 'e');
    assert("eu-west-3"@[5] == 's');
    assert("eu-west-3"@[6] == 't');
    assert("eu-west-3"@[7] == '-');
    assert("eu-west-3"@[8] == '3');
    reveal_strlit("eu-central-1");
    assert("eu-central-1"@[0] == 'e');
    assert("eu-central-1"@[1] == 'u');
    assert("eu-central-1"@[2] == '-');
    assert("eu-central-1"@[3] == 'c');
    assert("eu-central-1"@[4] == 'e');
    assert("eu-central-1"@[5] == 'n');
    assert("eu-central-1"@[6] == 't');
    assert("eu-central-1"@[7] == 'r');
    assert("eu-central-1"@[8] == 'a');
    assert("eu-central-1"@[9] == 'l');
    assert("eu-central-1"@[10] == '-');
    assert("eu-central-1"@[11] == '1');
    reveal_strlit("ap-southeast-1");
    assert("ap-southeast-1"@[0] == 'a');
    assert("ap-southeast-1"@[1] == 'p');
    assert("ap-southeast-1"@[2] == '-');
    assert("ap-southeast-1"@[3] == 's');
    assert("ap-southeast-1"@[4] == 'o');
    assert("ap-southeast-1"@[5] == 'u');
    assert("ap-southeast-1"@[6] == 't');
    assert("ap-southeast-1"@[7] == 'h');
    assert("ap-southeast-1"@[8] == 'e');
    assert("ap-southeast-1"@[9] == 'a');
    assert("ap-southeast-1"@[10] == 's');
    assert("ap-southeast-1"@[11] == 't');
    assert("ap-southeast-1"@[12] == '-');
    assert("ap-southeast-1"@[13] == '1');
    reveal_strlit("ap-southeast-2");
    assert("ap-southeast-2"@[0] == 'a');
    assert("ap-southeast-2"@[1] == 'p');
    assert("ap-southeast-2"@[2] == '-');
    assert("ap-southeast-2"@[3] == 's');
    assert("ap-southeast-2"@[4] == 'o');
    assert("ap-southeast-2"@[5] == 'u');
    assert("ap-southeast-2"@[6] == 't');
    assert("ap-southeast-2"@[7] == 'h');
    assert("ap-southeast-2"@[8] == 'e');
    assert("ap-southeast-2"@[9] == 'a');
    assert("ap-southeast-2"@[10] == 's');
    assert("ap-southeast-2"@[11] == 't');
    assert("ap-southeast-2"@[12] == '-');
    assert("ap-southeast-2"@[13] == '2');
    reveal_strlit("ap-northeast-1");
    assert("ap-northeast-1"@[0] == 'a');
    assert("ap-northeast-1"@[1] == 'p');
    assert("ap-northeast-1"@[2] == '-');
    assert("ap-northeast-1"@[3] == 'n');
    assert("ap-northeast-1"@[4] == 'o');
    assert("ap-northeast-1"@[5] == 'r');
    assert("ap-northeast-1"@[6] == 't');
    assert("ap-northeast-1"@[7] == 'h');
    assert("ap-northeast-1"@[8] == 'e');
    assert("ap-northeast-1"@[9] == 'a');
    assert("ap-northeast-1"@[10] == 's');
    assert("ap-northeast-1"@[11] == 't');
    assert("ap-northeast-1"@[12] == '-');
    assert("ap-northeast-1"@[13] == '1');
}

proof fn lemma_ec2_hcl_lines(name: Seq<char>, count_line: Seq<char>, zone: Seq<char>, plan_line: Seq<char>, metadata: Seq<char>, login: Seq<char>, tags: Seq<char>, user_data: Seq<char>)
    ensures
        contains(spec_ec2_server_hcl(name, count_line, zone, plan_line, metadata, login, tags, user_data), "  zone     = \""@ + zone + "\"\n"@),
        contains(spec_ec2_server_hcl(name, count_line, zone, plan_line, metadata, login, tags, user_data), plan_line),
{
    let h = spec_ec2_server_hcl(name, count_line, zone, plan_line, metadata, login, tags, user_data);
    let a = "resource \"upcloud_server\" \""@ + name + "\" {\n"@ + count_line;
    let zl = "  zone     = \""@ + zone + "\"\n"@;
    let b = a + zl;
    let c = b + plan_line;
    assert(h.subrange(0, c.len() as int) =~= c);
    assert(h.subrange(a.len() as int, b.len() as int) =~= zl) by {
        assert(c.subrange(a.len() as int, b.len() as int) =~= zl);
        assert(h.subrange(a.len() as int, b.len() as int) =~= c.subrange(a.len() as int, b.len() as int));
    }
    assert(h.subrange(b.len() as int, c.len() as int) =~= plan_line) by {
        assert(c.subrange(b.len() as int, c.len() as int) =~= plan_line);
        assert(h.subrange(b.len() as int, c.len() as int) =~= c.subrange(b.len() as int, c.len() as int));
    }
    assert(matches_at(h, zl, a.len() as int));
    assert(matches_at(h, plan_line, b.len() as int));
    lemma_find_from_bounds(h, zl, 0);
    lemma_find_from_bounds(h, plan_line, 0);
}

/// The server written for an EC2 instance runs in the zone of its availability zone
/// (`__ZONE__` when it has none) and, when its instance type is a literal, on the plan
/// of that type: the table's plan for a known type, `2xCPU-4GB` for any other.
pub proof fn ec2_server_carries_plan_and_zone(res: TerraformResource)
    ensures
        ({
            let it = res.attr_trim_or("instance_type"@, "t3.micro"@);
            let zone = match res.attr_trim("availability_zone"@) {
                Some(az) => spec_aws_zone_default(az),
                None => "__ZONE__"@,
            };
            let plan = match spec_aws_instance_plan(it) {
                Some(p) => p,
                None => "2xCPU-4GB"@,
            };
            &&& spec_map_instance(res).upcloud_hcl is Some
            &&& contains(spec_map_instance(res).upcloud_hcl->Some_0, "  zone     = \""@ + zone + "\"\n"@)
            &&& !spec_is_tf_expr(it) ==> contains(spec_map_instance(res).upcloud_hcl->Some_0, "  plan     = \""@ + plan + "\"\n"@)
        }),
{
    let it = res.attr_trim_or("instance_type"@, "t3.micro"@);
    let zone = match res.attr_trim("availability_zone"@) {
        Some(az) => spec_aws_zone_default(az),
        None => "__ZONE__"@,
    };
    let hostname = replace_char(res.name@, '_', "-"@);
    let count_line = match res.attr_trim("count"@) {
        Some(n) => "  count    = "@ + n + "\n  hostname = \""@ + hostname + "-${count.index + 1}\"\n"@,
        None => "  hostname = \""@ + hostname + "\"\n"@,
    };
    let plan_line = if spec_is_tf_expr(it) {
        "  plan     = "@ + it + "\n"@
    } else {
        "  plan     = \""@ + spec_map_instance_type(it) + "\"\n"@
    };
    let ud = res.attr("user_data"@);
    let metadata = if ud is Some { "\n  metadata  = true"@ } else { seq![] };
    let tags = res.attr_trim_or("tags.Name"@, hostname);
    let key = match res.attr("key_name"@) {
        Some(v) => Some(key_ref_of(v)),
        None => None,
    };
    let user_data_line = match ud {
        Some(v) => "\n  user_data = "@ + spec_normalize_heredoc(v),
        None => seq![],
    };
    lemma_ec2_hcl_lines(res.name@, count_line, zone, plan_line, metadata, login_block(key), tags, user_data_line);
    assert(spec_map_instance(res).upcloud_hcl == Some(spec_ec2_server_hcl(res.name@, count_line, zone, plan_line, metadata, login_block(key), tags, user_data_line)));
}

} // verus!
