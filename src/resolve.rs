use vstd::prelude::*;

use crate::config::EngineConfig;
use crate::error::{Artifact, Failure, TranscribeError};
use crate::paths::{join, join_spec, views_of, FsView};

verus! {

/// One transcription request: an uploaded file's name, or a path given as is.
#[derive(Clone, Debug)]
pub struct TranscriptionRequest {
    pub filename: String,
    pub explicit_path: Option<String>,
}

/// The three files an engine run needs.
#[derive(Clone, Debug, PartialEq, Eq)]
pub struct ResolvedPaths {
    pub audio: String,
    pub executable: String,
    pub model: String,
}

pub struct PathsModel {
    pub audio: Seq<char>,
    pub executable: Seq<char>,
    pub model: Seq<char>,
}

impl View for ResolvedPaths {
    type V = PathsModel;

    open spec fn view(&self) -> PathsModel {
        PathsModel { audio: self.audio@, executable: self.executable@, model: self.model@ }
    }
}

pub open spec fn paths_result_view(r: Result<ResolvedPaths, TranscribeError>) -> Result<
    PathsModel,
    Failure,
> {
    match r {
        Ok(p) => Ok(p@),
        Err(e) => Err(e@),
    }
}

/// The first index in `i..n` at which `hit` holds.
pub open spec fn first_hit(n: int, hit: spec_fn(int) -> bool, i: int) -> Option<int>
    decreases n - i,
{
    if i >= n {
        None
    } else if hit(i) {
        Some(i)
    } else {
        first_hit(n, hit, i + 1)
    }
}

/// Where an uploaded file called `name` may be, in order of preference.
pub open spec fn audio_candidates(cfg: EngineConfig, name: Seq<char>) -> Seq<Seq<char>> {
    views_of(cfg.upload_dirs@).map_values(|d: Seq<char>| join_spec(d, name))
}

pub open spec fn present_at(c: Seq<Seq<char>>, fs: Set<Seq<char>>) -> spec_fn(int) -> bool {
    |k: int| fs.contains(c[k])
}

/// The last path of `c`, or `dflt` when there is none.
pub open spec fn last_or(c: Seq<Seq<char>>, dflt: Seq<char>) -> Seq<char> {
    if c.len() == 0 {
        dflt
    } else {
        c.last()
    }
}

/// The audio file of a request: a given path is used as is once it exists;
/// a name is looked up in the upload directories in order. A file that is
/// found only in the legacy upload directory is refused.
pub open spec fn resolve_audio_spec(
    cfg: EngineConfig,
    req: TranscriptionRequest,
    fs: Set<Seq<char>>,
) -> Result<Seq<char>, Failure> {
    match req.explicit_path {
        Some(p) => if fs.contains(p@) {
            Ok(p@)
        } else {
            Err(Failure::PathNotFound { artifact: Artifact::Audio, path_tried: p@ })
        },
        None => {
            let c = audio_candidates(cfg, req.filename@);
            match first_hit(c.len() as int, present_at(c, fs), 0) {
                Some(k) => Ok(c[k]),
                None => {
                    let not_found = Failure::PathNotFound {
                        artifact: Artifact::Audio,
                        path_tried: last_or(c, req.filename@),
                    };
                    match cfg.legacy_upload_dir {
                        Some(l) => if fs.contains(join_spec(l@, req.filename@)) {
                            Err(
                                Failure::LegacyPathDetected {
                                    legacy_path: join_spec(l@, req.filename@),
                                },
                            )
                        } else {
                            Err(not_found)
                        },
                        None => Err(not_found),
                    }
                },
            }
        },
    }
}

pub open spec fn exe_at(cfg: EngineConfig, k: int) -> Seq<char> {
    join_spec(cfg.engine_dirs@[k]@, cfg.executable@)
}

pub open spec fn model_at(cfg: EngineConfig, k: int) -> Seq<char> {
    join_spec(cfg.engine_dirs@[k]@, cfg.model@)
}

pub open spec fn engine_complete_at(cfg: EngineConfig, fs: Set<Seq<char>>) -> spec_fn(
    int,
) -> bool {
    |k: int| fs.contains(exe_at(cfg, k)) && fs.contains(model_at(cfg, k))
}

pub open spec fn exe_present(cfg: EngineConfig, fs: Set<Seq<char>>) -> spec_fn(int) -> bool {
    |k: int| fs.contains(exe_at(cfg, k))
}

pub open spec fn model_present(cfg: EngineConfig, fs: Set<Seq<char>>) -> spec_fn(int) -> bool {
    |k: int| fs.contains(model_at(cfg, k))
}

/// The executable and the model: from the first engine directory that holds
/// both. When none does, the failure names a file that is missing:
/// - the executable, when no directory holds it, with its path in the last
///   directory (its relative name when no directory is configured);
/// - else the model, when no directory holds it, with its path in the last
///   directory;
/// - else (each exists, never beside the other) the model, with its path in
///   the first directory that holds the executable.
pub open spec fn resolve_engine_spec(cfg: EngineConfig, fs: Set<Seq<char>>) -> Result<
    (Seq<char>, Seq<char>),
    Failure,
> {
    let n = cfg.engine_dirs.len() as int;
    match first_hit(n, engine_complete_at(cfg, fs), 0) {
        Some(k) => Ok((exe_at(cfg, k), model_at(cfg, k))),
        None => match first_hit(n, exe_present(cfg, fs), 0) {
            None => if n == 0 {
                Err(
                    Failure::PathNotFound {
                        artifact: Artifact::Executable,
                        path_tried: cfg.executable@,
                    },
                )
            } else {
                Err(
                    Failure::PathNotFound {
                        artifact: Artifact::Executable,
                        path_tried: exe_at(cfg, n - 1),
                    },
                )
            },
            Some(j) => if first_hit(n, model_present(cfg, fs), 0).is_none() {
                Err(Failure::PathNotFound { artifact: Artifact::Model, path_tried: model_at(cfg, n - 1) })
            } else {
                Err(Failure::PathNotFound { artifact: Artifact::Model, path_tried: model_at(cfg, j) })
            },
        },
    }
}

/// The audio file first, then the engine and its model.
pub open spec fn resolve_spec(cfg: EngineConfig, req: TranscriptionRequest, fs: Set<Seq<char>>) -> Result<
    PathsModel,
    Failure,
> {
    match resolve_audio_spec(cfg, req, fs) {
        Err(e) => Err(e),
        Ok(a) => match resolve_engine_spec(cfg, fs) {
            Err(e) => Err(e),
            Ok((x, m)) => Ok(PathsModel { audio: a, executable: x, model: m }),
        },
    }
}

fn resolve_audio(cfg: &EngineConfig, req: &TranscriptionRequest, fs: &FsView) -> (r: Result<
    String,
    TranscribeError,
>)
    ensures
        crate::error::text_result_view(r) == resolve_audio_spec(*cfg, *req, fs@),
{
    match &req.explicit_path {
        Some(p) => {
            if fs.contains(p) {
                Ok(p.clone())
            } else {
                Err(TranscribeError::PathNotFound { artifact: Artifact::Audio, path_tried: p.clone() })
            }
        },
        None => {
            let ghost c = audio_candidates(*cfg, req.filename@);
            let ghost hit = present_at(c, fs@);
            let ghost n = c.len() as int;
            let mut last = req.filename.clone();
            let mut i: usize = 0;
            while i < cfg.upload_dirs.len()
                invariant
                    i <= cfg.upload_dirs.len(),
                    req.explicit_path.is_none(),
                    c == audio_candidates(*cfg, req.filename@),
                    hit == present_at(c, fs@),
                    n == c.len() == cfg.upload_dirs.len(),
                    first_hit(n, hit, 0) == first_hit(n, hit, i as int),
                    i == 0 ==> last@ == req.filename@,
                    i > 0 ==> last@ == c[i - 1],
                decreases cfg.upload_dirs.len() - i,
            {
                let cand = join(&cfg.upload_dirs[i], &req.filename);
                assert(cand@ == c[i as int]);
                if fs.contains(&cand) {
                    assert(hit(i as int));
                    assert(first_hit(n, hit, i as int) == Some(i as int));
                    return Ok(cand);
                }
                last = cand;
                i = i + 1;
            }
            assert(first_hit(n, hit, 0).is_none());
            let not_found = TranscribeError::PathNotFound { artifact: Artifact::Audio, path_tried: last };
            match &cfg.legacy_upload_dir {
                Some(l) => {
                    let legacy = join(l, &req.filename);
                    if fs.contains(&legacy) {
                        Err(TranscribeError::LegacyPathDetected { legacy_path: legacy })
                    } else {
                        Err(not_found)
                    }
                },
                None => Err(not_found),
            }
        },
    }
}

fn resolve_engine(cfg: &EngineConfig, fs: &FsView) -> (r: Result<(String, String), TranscribeError>)
    ensures
        match r {
            Ok((x, m)) => resolve_engine_spec(*cfg, fs@) == Ok::<_, Failure>((x@, m@)),
            Err(e) => resolve_engine_spec(*cfg, fs@) == Err::<(Seq<char>, Seq<char>), _>(e@),
        },
{
    let ghost hit = engine_complete_at(*cfg, fs@);
    let ghost eh = exe_present(*cfg, fs@);
    let ghost mh = model_present(*cfg, fs@);
    let ghost n = cfg.engine_dirs.len() as int;
    let mut first_exe: Option<usize> = None;
    let mut any_model = false;
    let mut i: usize = 0;
    while i < cfg.engine_dirs.len()
        invariant
            i <= cfg.engine_dirs.len(),
            hit == engine_complete_at(*cfg, fs@),
            eh == exe_present(*cfg, fs@),
            mh == model_present(*cfg, fs@),
            n == cfg.engine_dirs.len(),
            first_hit(n, hit, 0) == first_hit(n, hit, i as int),
            first_exe.is_none() ==> first_hit(n, eh, 0) == first_hit(n, eh, i as int),
            first_exe.is_some() ==> first_exe->0 < i && first_hit(n, eh, 0) == Some(
                first_exe->0 as int,
            ),
            !any_model ==> first_hit(n, mh, 0) == first_hit(n, mh, i as int),
            any_model ==> first_hit(n, mh, 0).is_some(),
        decreases cfg.engine_dirs.len() - i,
    {
        let exe = join(&cfg.engine_dirs[i], &cfg.executable);
        let model = join(&cfg.engine_dirs[i], &cfg.model);
        assert(exe@ == exe_at(*cfg, i as int));
        assert(model@ == model_at(*cfg, i as int));
        let has_exe = fs.contains(&exe);
        let has_model = fs.contains(&model);
        if has_exe && has_model {
            assert(hit(i as int));
            return Ok((exe, model));
        }
        if has_exe && first_exe.is_none() {
            assert(eh(i as int));
            first_exe = Some(i);
        }
        if has_model && !any_model {
            assert(mh(i as int));
            any_model = true;
        }
        assert(has_exe == eh(i as int));
        assert(has_model == mh(i as int));
        assert(!hit(i as int));
        i = i + 1;
    }
    assert(first_hit(n, hit, 0).is_none());
    let len = cfg.engine_dirs.len();
    match first_exe {
        None => {
            assert(first_hit(n, eh, 0).is_none());
            if len == 0 {
                Err(
                    TranscribeError::PathNotFound {
                        artifact: Artifact::Executable,
                        path_tried: cfg.executable.clone(),
                    },
                )
            } else {
                let exe = join(&cfg.engine_dirs[len - 1], &cfg.executable);
                Err(TranscribeError::PathNotFound { artifact: Artifact::Executable, path_tried: exe })
            }
        },
        Some(j) => {
            let k = if any_model {
                j
            } else {
                assert(first_hit(n, mh, 0).is_none());
                len - 1
            };
            let model = join(&cfg.engine_dirs[k], &cfg.model);
            Err(TranscribeError::PathNotFound { artifact: Artifact::Model, path_tried: model })
        },
    }
}

/// Resolves the audio file, the engine and its model against what is known
/// to exist.
pub fn resolve_paths(cfg: &EngineConfig, req: &TranscriptionRequest, fs: &FsView) -> (r: Result<
    ResolvedPaths,
    TranscribeError,
>)
    ensures
        paths_result_view(r) == resolve_spec(*cfg, *req, fs@),
{
    let audio = match resolve_audio(cfg, req, fs) {
        Ok(a) => a,
        Err(e) => {
            return Err(e);
        },
    };
    match resolve_engine(cfg, fs) {
        Ok((executable, model)) => Ok(ResolvedPaths { audio, executable, model }),
        Err(e) => Err(e),
    }
}

/// The paths whose existence decides the audio file, in the order they
/// are looked at.
pub open spec fn audio_probes(cfg: EngineConfig, req: TranscriptionRequest) -> Seq<Seq<char>> {
    match req.explicit_path {
        Some(p) => seq![p@],
        None => {
            let c = audio_candidates(cfg, req.filename@);
            match cfg.legacy_upload_dir {
                Some(l) => c.push(join_spec(l@, req.filename@)),
                None => c,
            }
        },
    }
}

/// Every executable candidate, then every model candidate.
pub open spec fn engine_probes(cfg: EngineConfig) -> Seq<Seq<char>> {
    let n = cfg.engine_dirs.len() as int;
    Seq::new(n as nat, |k: int| exe_at(cfg, k)) + Seq::new(n as nat, |k: int| model_at(cfg, k))
}

pub open spec fn probe_spec(cfg: EngineConfig, req: TranscriptionRequest) -> Seq<Seq<char>> {
    audio_probes(cfg, req) + engine_probes(cfg)
}

/// The paths whose existence has to be known before `resolve_paths` runs.
pub fn probe_paths(cfg: &EngineConfig, req: &TranscriptionRequest) -> (r: Vec<String>)
    ensures
        views_of(r@) == probe_spec(*cfg, *req),
{
    let mut out: Vec<String> = Vec::new();
    match &req.explicit_path {
        Some(p) => {
            out.push(p.clone());
            assert(views_of(out@) =~= audio_probes(*cfg, *req));
        },
        None => {
            let ghost c = audio_candidates(*cfg, req.filename@);
            let mut i: usize = 0;
            while i < cfg.upload_dirs.len()
                invariant
                    i <= cfg.upload_dirs.len(),
                    c == audio_candidates(*cfg, req.filename@),
                    c.len() == cfg.upload_dirs.len(),
                    views_of(out@) == c.take(i as int),
                decreases cfg.upload_dirs.len() - i,
            {
                let cand = join(&cfg.upload_dirs[i], &req.filename);
                let ghost before = views_of(out@);
                out.push(cand);
                assert(views_of(out@) =~= before.push(cand@));
                assert(c.take(i + 1) =~= c.take(i as int).push(c[i as int]));
                i = i + 1;
            }
            assert(c.take(i as int) =~= c);
            match &cfg.legacy_upload_dir {
                Some(l) => {
                    let legacy = join(l, &req.filename);
                    let ghost before = views_of(out@);
                    out.push(legacy);
                    assert(views_of(out@) =~= before.push(legacy@));
                },
                None => {},
            }
        },
    }
    let ghost a = audio_probes(*cfg, *req);
    assert(views_of(out@) == a);
    let ghost n = cfg.engine_dirs.len() as int;
    let mut i: usize = 0;
    while i < cfg.engine_dirs.len()
        invariant
            i <= cfg.engine_dirs.len(),
            n == cfg.engine_dirs.len(),
            views_of(out@) == a + Seq::new(i as nat, |k: int| exe_at(*cfg, k)),
        decreases cfg.engine_dirs.len() - i,
    {
        let exe = join(&cfg.engine_dirs[i], &cfg.executable);
        let ghost before = views_of(out@);
        out.push(exe);
        assert(views_of(out@) =~= before.push(exe@));
        assert(a + Seq::new((i + 1) as nat, |k: int| exe_at(*cfg, k)) =~= (a + Seq::new(
            i as nat,
            |k: int| exe_at(*cfg, k),
        )).push(exe@));
        i = i + 1;
    }
    let ghost e = a + Seq::new(n as nat, |k: int| exe_at(*cfg, k));
    let mut i: usize = 0;
    while i < cfg.engine_dirs.len()
        invariant
            i <= cfg.engine_dirs.len(),
            n == cfg.engine_dirs.len(),
            views_of(out@) == e + Seq::new(i as nat, |k: int| model_at(*cfg, k)),
        decreases cfg.engine_dirs.len() - i,
    {
        let model = join(&cfg.engine_dirs[i], &cfg.model);
        let ghost before = views_of(out@);
        out.push(model);
        assert(views_of(out@) =~= before.push(model@));
        assert(e + Seq::new((i + 1) as nat, |k: int| model_at(*cfg, k)) =~= (e + Seq::new(
            i as nat,
            |k: int| model_at(*cfg, k),
        )).push(model@));
        i = i + 1;
    }
    assert(views_of(out@) =~= probe_spec(*cfg, *req));
    out
}

proof fn lemma_first_hit_found(n: int, hit: spec_fn(int) -> bool, i: int, k: int)
    requires
        i <= k < n,
        hit(k),
        forall|j: int| i <= j < k ==> !#[trigger] hit(j),
    ensures
        first_hit(n, hit, i) == Some(k),
    decreases k - i,
{
    if i < k {
        lemma_first_hit_found(n, hit, i + 1, k);
    }
}

proof fn lemma_first_hit_none(n: int, hit: spec_fn(int) -> bool, i: int)
    requires
        forall|j: int| i <= j < n ==> !#[trigger] hit(j),
    ensures
        first_hit(n, hit, i).is_none(),
    decreases n - i,
{
    if i < n {
        lemma_first_hit_none(n, hit, i + 1);
    }
}

proof fn lemma_first_hit_congruent(n: int, h1: spec_fn(int) -> bool, h2: spec_fn(int) -> bool, i: int)
    requires
        forall|j: int| i <= j < n ==> #[trigger] h1(j) == h2(j),
    ensures
        first_hit(n, h1, i) == first_hit(n, h2, i),
    decreases n - i,
{
    if i < n {
        lemma_first_hit_congruent(n, h1, h2, i + 1);
    }
}

proof fn lemma_first_hit_sound(n: int, hit: spec_fn(int) -> bool, i: int)
    ensures
        first_hit(n, hit, i) matches Some(k) ==> i <= k < n && hit(k),
        first_hit(n, hit, i).is_none() ==> forall|j: int| i <= j < n ==> !#[trigger] hit(j),
    decreases n - i,
{
    if i < n {
        lemma_first_hit_sound(n, hit, i + 1);
    }
}

/// When the engine cannot be resolved, the failure names a file that does
/// not exist at the path it gives, and it blames the executable only when no
/// engine directory holds one.
pub proof fn engine_failure_names_missing_file(cfg: EngineConfig, fs: Set<Seq<char>>)
    ensures
        resolve_engine_spec(cfg, fs) matches Err(Failure::PathNotFound { artifact, path_tried })
            ==> cfg.engine_dirs.len() > 0 ==> !fs.contains(path_tried),
        resolve_engine_spec(cfg, fs) matches Err(
            Failure::PathNotFound { artifact: Artifact::Executable, path_tried },
        ) ==> forall|k: int| 0 <= k < cfg.engine_dirs.len() ==> !fs.contains(#[trigger] exe_at(cfg, k)),
        resolve_engine_spec(cfg, fs) matches Err(Failure::PathNotFound { artifact, path_tried })
            ==> artifact != Artifact::Audio,
{
    let n = cfg.engine_dirs.len() as int;
    lemma_first_hit_sound(n, engine_complete_at(cfg, fs), 0);
    lemma_first_hit_sound(n, exe_present(cfg, fs), 0);
    lemma_first_hit_sound(n, model_present(cfg, fs), 0);
    if first_hit(n, engine_complete_at(cfg, fs), 0).is_none() {
        if n > 0 {
            assert(!exe_present(cfg, fs)(n - 1) || first_hit(n, exe_present(cfg, fs), 0).is_some());
            assert(!model_present(cfg, fs)(n - 1) || first_hit(n, model_present(cfg, fs), 0).is_some());
        }
        if let Some(j) = first_hit(n, exe_present(cfg, fs), 0) {
            assert(exe_present(cfg, fs)(j));
            assert(!engine_complete_at(cfg, fs)(j));
        } else {
            assert forall|k: int| 0 <= k < n implies !fs.contains(#[trigger] exe_at(cfg, k)) by {
                assert(!exe_present(cfg, fs)(k));
            }
        }
    }
}

/// A path given with the request, together with an executable and a model
/// in the first engine directory that holds both, comes back unchanged once
/// all three exist.
pub proof fn explicit_path_is_kept(
    cfg: EngineConfig,
    req: TranscriptionRequest,
    fs: Set<Seq<char>>,
    k: int,
)
    requires
        req.explicit_path.is_some(),
        fs.contains(req.explicit_path->0@),
        0 <= k < cfg.engine_dirs.len(),
        fs.contains(exe_at(cfg, k)),
        fs.contains(model_at(cfg, k)),
        forall|j: int| 0 <= j < k ==> !(fs.contains(exe_at(cfg, j)) && fs.contains(model_at(cfg, j))),
    ensures
        resolve_spec(cfg, req, fs) == Ok::<PathsModel, Failure>(
            PathsModel {
                audio: req.explicit_path->0@,
                executable: exe_at(cfg, k),
                model: model_at(cfg, k),
            },
        ),
{
    let hit = engine_complete_at(cfg, fs);
    assert(hit(k));
    assert forall|j: int| 0 <= j < k implies !#[trigger] hit(j) by {}
    lemma_first_hit_found(cfg.engine_dirs.len() as int, hit, 0, k);
}

/// A file that is missing from every upload directory but present in the
/// legacy one is always refused with the legacy path, never used.
pub proof fn legacy_upload_is_refused(cfg: EngineConfig, req: TranscriptionRequest, fs: Set<Seq<char>>)
    requires
        req.explicit_path.is_none(),
        forall|k: int|
            0 <= k < cfg.upload_dirs.len() ==> !fs.contains(
                #[trigger] join_spec(cfg.upload_dirs@[k]@, req.filename@),
            ),
        cfg.legacy_upload_dir.is_some(),
        fs.contains(join_spec(cfg.legacy_upload_dir->0@, req.filename@)),
    ensures
        resolve_spec(cfg, req, fs) == Err::<PathsModel, Failure>(
            Failure::LegacyPathDetected {
                legacy_path: join_spec(cfg.legacy_upload_dir->0@, req.filename@),
            },
        ),
{
    let c = audio_candidates(cfg, req.filename@);
    let hit = present_at(c, fs);
    assert forall|j: int| 0 <= j < c.len() implies !#[trigger] hit(j) by {
        assert(c[j] == join_spec(cfg.upload_dirs@[j]@, req.filename@));
    }
    lemma_first_hit_none(c.len() as int, hit, 0);
}

/// Resolution looks at nothing but the probed paths: two views of the
/// filesystem that agree on them give the same result. In particular,
/// resolving twice with no change on disk in between gives identical paths.
pub proof fn resolution_depends_only_on_probes(
    cfg: EngineConfig,
    req: TranscriptionRequest,
    fs1: Set<Seq<char>>,
    fs2: Set<Seq<char>>,
)
    requires
        forall|p: Seq<char>| #[trigger]
            probe_spec(cfg, req).contains(p) ==> (fs1.contains(p) <==> fs2.contains(p)),
    ensures
        resolve_spec(cfg, req, fs1) == resolve_spec(cfg, req, fs2),
{
    let probes = probe_spec(cfg, req);
    let a = audio_probes(cfg, req);
    let n = cfg.engine_dirs.len() as int;
    assert forall|j: int| 0 <= j < a.len() implies (fs1.contains(a[j]) <==> fs2.contains(a[j])) by {
        assert(probes[j] == a[j]);
        assert(probes.contains(a[j]));
    }
    match req.explicit_path {
        Some(p) => {
            assert(a[0] == p@);
        },
        None => {
            let c = audio_candidates(cfg, req.filename@);
            assert forall|j: int| 0 <= j < c.len() implies #[trigger] present_at(c, fs1)(j) == present_at(
                c,
                fs2,
            )(j) by {
                assert(a[j] == c[j]);
            }
            lemma_first_hit_congruent(c.len() as int, present_at(c, fs1), present_at(c, fs2), 0);
            match cfg.legacy_upload_dir {
                Some(l) => {
                    assert(a[c.len() as int] == join_spec(l@, req.filename@));
                },
                None => {},
            }
        },
    }
    assert forall|k: int| 0 <= k < n implies (fs1.contains(exe_at(cfg, k)) <==> fs2.contains(
        exe_at(cfg, k),
    )) && (fs1.contains(model_at(cfg, k)) <==> fs2.contains(model_at(cfg, k))) by {
        assert(probes[a.len() + k] == exe_at(cfg, k));
        assert(probes.contains(exe_at(cfg, k)));
        assert(probes[a.len() + n + k] == model_at(cfg, k));
        assert(probes.contains(model_at(cfg, k)));
    }
    assert forall|k: int| 0 <= k < n implies #[trigger] engine_complete_at(cfg, fs1)(k) == engine_complete_at(
        cfg,
        fs2,
    )(k) by {}
    lemma_first_hit_congruent(n, engine_complete_at(cfg, fs1), engine_complete_at(cfg, fs2), 0);
    assert forall|k: int| 0 <= k < n implies #[trigger] exe_present(cfg, fs1)(k) == exe_present(
        cfg,
        fs2,
    )(k) by {}
    lemma_first_hit_congruent(n, exe_present(cfg, fs1), exe_present(cfg, fs2), 0);
    assert forall|k: int| 0 <= k < n implies #[trigger] model_present(cfg, fs1)(k) == model_present(
        cfg,
        fs2,
    )(k) by {}
    lemma_first_hit_congruent(n, model_present(cfg, fs1), model_present(cfg, fs2), 0);
}

} // verus!
