use vstd::prelude::*;

verus! {

/// The file name under which a model is kept in its directory.
pub open spec fn model_file_name() -> Seq<char> {
    "model.gguf"@
}

/// The path of the model file under `dir`: the directory, a separator and
/// the fixed file name.
pub open spec fn model_file_spec(dir: Seq<char>) -> Seq<char> {
    dir + "/model.gguf"@
}

/// The path that a download writes to before it is complete.
pub open spec fn partial_file_spec(dir: Seq<char>) -> Seq<char> {
    dir + "/model.gguf.part"@
}

/// Path of the model file inside `model_path`.
pub fn model_file_path(model_path: &str) -> (r: String)
    ensures
        r@ == model_file_spec(model_path@),
{
    let mut r = String::from_str(model_path);
    r.append("/model.gguf");
    r
}

/// Path of the file a download fills before it is renamed to the model
/// file, so that an interrupted download never shows up as a model.
pub fn partial_file_path(model_path: &str) -> (r: String)
    ensures
        r@ == partial_file_spec(model_path@),
{
    let mut r = String::from_str(model_path);
    r.append("/model.gguf.part");
    r
}

/// Whether a file named `model.gguf` is present directly under
/// `model_path`. The caller supplies `is_present`, which answers whether
/// something exists at a path on disk; it is asked about the model file's
/// path and nothing else, and its answer is the result. Only presence is
/// checked, not content or size.
pub fn model_exists<F: Fn(String) -> bool>(model_path: &str, is_present: F) -> (r: bool)
    requires
        forall|p: String| #[trigger] is_present.requires((p,)),
    ensures
        exists|p: String| p@ == model_file_spec(model_path@) && #[trigger] is_present.ensures((p,), r),
{
    let path = model_file_path(model_path);
    let ghost asked = path;
    let r = is_present(path);
    assert(asked@ == model_file_spec(model_path@) && is_present.ensures((asked,), r));
    r
}

/// The path that `model_exists` looks at is `model_path`, one separator, and
/// exactly the name `model.gguf`, which holds no separator: the model is a
/// direct child of the directory. The in-progress path differs from it, so
/// a partial download is never taken for the model.
pub proof fn lemma_model_file_is_direct_child(model_path: Seq<char>)
    ensures
        model_file_spec(model_path).len() == model_path.len() + 11,
        model_file_spec(model_path).subrange(0, model_path.len() as int) == model_path,
        model_file_spec(model_path)[model_path.len() as int] == '/',
        model_file_spec(model_path).subrange(model_path.len() + 1int, model_path.len() + 11int)
            == model_file_name(),
        forall|i: int|
            model_path.len() < i < model_file_spec(model_path).len()
                ==> model_file_spec(model_path)[i] != '/',
        partial_file_spec(model_path) != model_file_spec(model_path),
{
    reveal_strlit("/model.gguf");
    reveal_strlit("model.gguf");
    reveal_strlit("/model.gguf.part");
    let f = model_file_spec(model_path);
    assert(f.subrange(0, model_path.len() as int) =~= model_path);
    assert(f.subrange(model_path.len() + 1int, model_path.len() + 11int) =~= model_file_name());
    assert(partial_file_spec(model_path).len() != f.len());
}

} // verus!
