use vstd::prelude::*;

verus! {

/// Name of the program that runs inside each terminal.
pub open spec fn program_name() -> Seq<char> {
    seq!['p', 'o', 'p', 'p', 'e', 'r']
}

/// The names the program may carry: the plain one, then the one qualified
/// with the platform triple when a triple is known.
pub open spec fn sidecar_names(triple: Option<Seq<char>>) -> Seq<Seq<char>> {
    match triple {
        None => seq![program_name()],
        Some(t) => seq![program_name(), program_name() + seq!['-'] + t],
    }
}

/// `dir/bin/name`.
pub open spec fn bin_path(dir: Seq<char>, name: Seq<char>) -> Seq<char> {
    dir + seq!['/', 'b', 'i', 'n', '/'] + name
}

/// Each of `names` under `dir/bin`, in order; nothing when there is no `dir`.
pub open spec fn in_bin(dir: Option<Seq<char>>, names: Seq<Seq<char>>) -> Seq<Seq<char>> {
    match dir {
        None => Seq::empty(),
        Some(d) => names.map_values(|n: Seq<char>| bin_path(d, n)),
    }
}

/// The places searched, best first: the bundled resources, the directory of
/// the running executable, then the development tree.
pub open spec fn candidates_spec(
    resource_dir: Option<Seq<char>>,
    exe_dir: Option<Seq<char>>,
    dev_root: Seq<char>,
    triple: Option<Seq<char>>,
) -> Seq<Seq<char>> {
    let names = sidecar_names(triple);
    in_bin(resource_dir, names) + in_bin(exe_dir, names) + in_bin(Some(dev_root), names)
}

/// The texts of a list of strings.
pub open spec fn texts(v: Seq<String>) -> Seq<Seq<char>> {
    v.map_values(|s: String| s@)
}

pub open spec fn opt_text(v: Option<String>) -> Option<Seq<char>> {
    match v {
        Some(s) => Some(s@),
        None => None,
    }
}

fn program() -> (r: String)
    ensures
        r@ == program_name(),
{
    let mut r = String::new();
    r.append("popper");
    proof {
        reveal_strlit("popper");
        assert(r@ =~= program_name());
    }
    r
}

/// The names the program may carry, plain first.
pub fn sidecar_file_names(triple: &Option<String>) -> (r: Vec<String>)
    ensures
        texts(r@) == sidecar_names(opt_text(*triple)),
{
    let mut r: Vec<String> = Vec::new();
    r.push(program());
    match triple {
        Some(t) => {
            let q = program().concat("-").concat(t.as_str());
            proof {
                reveal_strlit("-");
                assert("-"@ =~= seq!['-']);
            }
            r.push(q);
            assert(texts(r@) =~= sidecar_names(opt_text(*triple)));
        },
        None => {
            assert(texts(r@) =~= sidecar_names(opt_text(*triple)));
        },
    }
    r
}

fn bin_entry(dir: &String, name: &String) -> (r: String)
    ensures
        r@ == bin_path(dir@, name@),
{
    let r = dir.clone().concat("/bin/").concat(name.as_str());
    proof {
        reveal_strlit("/bin/");
        assert("/bin/"@ =~= seq!['/', 'b', 'i', 'n', '/']);
    }
    r
}

fn push_in_bin(out: &mut Vec<String>, dir: &String, names: &Vec<String>)
    ensures
        texts(final(out)@) == texts(old(out)@) + in_bin(Some(dir@), texts(names@)),
{
    let ghost start = old(out)@;
    let mut i: usize = 0;
    while i < names.len()
        invariant
            i <= names@.len(),
            texts(out@) == texts(start) + in_bin(Some(dir@), texts(names@.subrange(0, i as int))),
        decreases names@.len() - i,
    {
        let p = bin_entry(dir, &names[i]);
        let ghost before = out@;
        out.push(p);
        proof {
            assert(names@.subrange(0, i + 1) =~= names@.subrange(0, i as int).push(names@[i as int]));
            assert(texts(out@) =~= texts(before).push(p@));
            assert(in_bin(Some(dir@), texts(names@.subrange(0, i + 1))) =~= in_bin(
                Some(dir@),
                texts(names@.subrange(0, i as int)),
            ).push(bin_path(dir@, names@[i as int]@)));
        }
        i = i + 1;
    }
    assert(names@.subrange(0, names@.len() as int) =~= names@);
}

/// Every place the program is looked for, in order of precedence.
/// `resource_dir` is the bundled resource directory and `exe_dir` the
/// directory of the running executable, where either is known; `dev_root` is
/// the root of the development tree.
pub fn sidecar_candidates(
    resource_dir: &Option<String>,
    exe_dir: &Option<String>,
    dev_root: &String,
    triple: &Option<String>,
) -> (r: Vec<String>)
    ensures
        texts(r@) == candidates_spec(opt_text(*resource_dir), opt_text(*exe_dir), dev_root@, opt_text(*triple)),
{
    let names = sidecar_file_names(triple);
    let mut r: Vec<String> = Vec::new();
    assert(texts(r@) =~= Seq::<Seq<char>>::empty());
    match resource_dir {
        Some(d) => push_in_bin(&mut r, d, &names),
        None => {},
    }
    let ghost after_res = texts(r@);
    assert(after_res =~= in_bin(opt_text(*resource_dir), texts(names@)));
    match exe_dir {
        Some(d) => push_in_bin(&mut r, d, &names),
        None => {},
    }
    assert(texts(r@) =~= after_res + in_bin(opt_text(*exe_dir), texts(names@)));
    push_in_bin(&mut r, dev_root, &names);
    assert(texts(r@) =~= candidates_spec(opt_text(*resource_dir), opt_text(*exe_dir), dev_root@, opt_text(*triple)));
    r
}

/// The candidates joined by `", "`.
pub open spec fn joined(s: Seq<Seq<char>>) -> Seq<char>
    decreases s.len(),
{
    if s.len() == 0 {
        Seq::empty()
    } else if s.len() == 1 {
        s[0]
    } else {
        joined(s.drop_last()) + ", "@ + s.last()
    }
}

/// The diagnostic for a program that was found nowhere.
pub open spec fn not_found_text(tried: Seq<Seq<char>>) -> Seq<char> {
    "Popper sidecar not found. Tried: "@ + joined(tried)
}

/// Says which places were searched in vain.
pub fn not_found_message(tried: &Vec<String>) -> (r: String)
    ensures
        r@ == not_found_text(texts(tried@)),
{
    let mut list = String::new();
    let mut i: usize = 0;
    while i < tried.len()
        invariant
            i <= tried@.len(),
            list@ == joined(texts(tried@.subrange(0, i as int))),
        decreases tried@.len() - i,
    {
        proof {
            let s = texts(tried@.subrange(0, i + 1));
            assert(s.drop_last() =~= texts(tried@.subrange(0, i as int)));
            assert(s.last() == tried@[i as int]@);
        }
        if i > 0 {
            list.append(", ");
        }
        list.append(tried[i].as_str());
        proof {
            if i == 0 {
                assert(list@ =~= texts(tried@.subrange(0, 1))[0]);
            }
        }
        i = i + 1;
    }
    assert(tried@.subrange(0, tried@.len() as int) =~= tried@);
    let mut r = String::new();
    r.append("Popper sidecar not found. Tried: ");
    r.append(list.as_str());
    r
}

/// The first candidate that exists, where `exists[i]` tells whether
/// `candidates[i]` is on disk; if none does, every candidate tried.
pub fn select_candidate(candidates: Vec<String>, exists: &Vec<bool>) -> (r: Result<String, Vec<String>>)
    requires
        candidates@.len() == exists@.len(),
    ensures
        r.is_ok() == exists|i: int| 0 <= i < exists@.len() && exists@[i],
        r matches Ok(p) ==> exists|i: int|
            0 <= i < exists@.len() && exists@[i] && p@ == candidates@[i]@
                && forall|j: int| 0 <= j < i ==> !exists@[j],
        r matches Err(t) ==> t@ == candidates@,
{
    let mut i: usize = 0;
    while i < candidates.len()
        invariant
            candidates@.len() == exists@.len(),
            i <= candidates@.len(),
            forall|j: int| 0 <= j < i ==> !exists@[j],
        decreases candidates@.len() - i,
    {
        if exists[i] {
            return Ok(candidates[i].clone());
        }
        i = i + 1;
    }
    Err(candidates)
}

} // verus!
