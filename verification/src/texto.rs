//! Text predicates shared by the capture and the provider modules.

use vstd::prelude::*;

verus! {

/// `c` has the Unicode `White_Space` property (PropList.txt), which is the
/// definition of whitespace used by `str::trim` and `char::is_whitespace`.
pub open spec fn espaco_unicode(c: char) -> bool {
    let n = c as int;
    ||| 0x09 <= n <= 0x0D
    ||| n == 0x20
    ||| n == 0x85
    ||| n == 0xA0
    ||| n == 0x1680
    ||| 0x2000 <= n <= 0x200A
    ||| n == 0x2028
    ||| n == 0x2029
    ||| n == 0x202F
    ||| n == 0x205F
    ||| n == 0x3000
}

/// Every character of `s` is whitespace (the empty text included).
pub open spec fn so_espacos(s: Seq<char>) -> bool {
    forall|i: int| 0 <= i < s.len() ==> espaco_unicode(#[trigger] s[i])
}

/// `s` without its leading whitespace.
pub open spec fn sem_espacos_no_inicio(s: Seq<char>) -> Seq<char>
    decreases s.len(),
{
    if s.len() > 0 && espaco_unicode(s[0]) {
        sem_espacos_no_inicio(s.drop_first())
    } else {
        s
    }
}

/// `s` without its trailing whitespace.
pub open spec fn sem_espacos_no_fim(s: Seq<char>) -> Seq<char>
    decreases s.len(),
{
    if s.len() > 0 && espaco_unicode(s.last()) {
        sem_espacos_no_fim(s.drop_last())
    } else {
        s
    }
}

/// `s` with leading and trailing whitespace removed.
pub open spec fn aparado(s: Seq<char>) -> Seq<char> {
    sem_espacos_no_fim(sem_espacos_no_inicio(s))
}

/// `s` ends with `sufixo`.
pub open spec fn termina_com(s: Seq<char>, sufixo: Seq<char>) -> bool {
    sufixo.len() <= s.len() && s.subrange(s.len() - sufixo.len(), s.len() as int) == sufixo
}

/// Calls `str::trim`, which by its documentation removes the leading and
/// trailing characters that have the Unicode `White_Space` property.
#[verifier::external_body]
pub(crate) fn aparar(s: &str) -> (r: &str)
    ensures
        r@ == aparado(s@),
{
    s.trim()
}

proof fn lemma_sem_espacos_no_inicio(s: Seq<char>) -> (k: int)
    ensures
        0 <= k <= s.len(),
        sem_espacos_no_inicio(s) == s.subrange(k, s.len() as int),
        forall|i: int| 0 <= i < k ==> espaco_unicode(#[trigger] s[i]),
        k < s.len() ==> !espaco_unicode(s[k]),
    decreases s.len(),
{
    if s.len() > 0 && espaco_unicode(s[0]) {
        let j = lemma_sem_espacos_no_inicio(s.drop_first());
        assert(s.drop_first().subrange(j, s.drop_first().len() as int) =~= s.subrange(
            j + 1,
            s.len() as int,
        ));
        assert forall|i: int| 0 <= i < j + 1 implies espaco_unicode(#[trigger] s[i]) by {
            if i > 0 {
                assert(s[i] == s.drop_first()[i - 1]);
            }
        }
        j + 1
    } else {
        assert(s.subrange(0, s.len() as int) =~= s);
        0
    }
}

proof fn lemma_sem_espacos_no_fim_vazio(s: Seq<char>)
    ensures
        sem_espacos_no_fim(s).len() == 0 <==> so_espacos(s),
    decreases s.len(),
{
    if s.len() > 0 && espaco_unicode(s.last()) {
        lemma_sem_espacos_no_fim_vazio(s.drop_last());
        if so_espacos(s.drop_last()) {
            assert forall|i: int| 0 <= i < s.len() implies espaco_unicode(#[trigger] s[i]) by {
                if i < s.len() - 1 {
                    assert(s[i] == s.drop_last()[i]);
                }
            }
        }
        if so_espacos(s) {
            assert forall|i: int| 0 <= i < s.drop_last().len() implies espaco_unicode(
                #[trigger] s.drop_last()[i],
            ) by {
                assert(s.drop_last()[i] == s[i]);
            }
        }
    } else if s.len() > 0 {
        assert(!espaco_unicode(s[s.len() - 1]));
    }
}

/// The trimmed text is empty exactly when the text is only whitespace.
pub proof fn lemma_aparado_vazio(s: Seq<char>)
    ensures
        aparado(s).len() == 0 <==> so_espacos(s),
{
    let k = lemma_sem_espacos_no_inicio(s);
    let t = s.subrange(k, s.len() as int);
    lemma_sem_espacos_no_fim_vazio(t);
    if so_espacos(t) {
        assert forall|i: int| 0 <= i < s.len() implies espaco_unicode(#[trigger] s[i]) by {
            if i >= k {
                assert(s[i] == t[i - k]);
            }
        }
    }
    if so_espacos(s) {
        assert forall|i: int| 0 <= i < t.len() implies espaco_unicode(#[trigger] t[i]) by {
            assert(t[i] == s[i + k]);
        }
    }
}

/// `a` and `b` hold the same characters.
pub fn mesmo_texto(a: &str, b: &str) -> (r: bool)
    ensures
        r == (a@ == b@),
{
    a.to_owned() == b.to_owned()
}

/// The trimmed `s` is empty: `s` holds only whitespace.
pub fn so_espacos_em(s: &str) -> (r: bool)
    ensures
        r == so_espacos(s@),
{
    let t = aparar(s);
    proof {
        lemma_aparado_vazio(s@);
    }
    t.is_empty()
}

/// `s` ends with `sufixo`.
pub fn termina_com_texto(s: &str, sufixo: &str) -> (r: bool)
    ensures
        r == termina_com(s@, sufixo@),
{
    let n = s.unicode_len();
    let m = sufixo.unicode_len();
    if m > n {
        return false;
    }
    let inicio = n - m;
    let mut i: usize = 0;
    while i < m
        invariant
            n == s@.len(),
            m == sufixo@.len(),
            m <= n,
            inicio == n - m,
            i <= m,
            forall|j: int| 0 <= j < i ==> s@[inicio + j] == sufixo@[j],
        decreases m - i,
    {
        if s.get_char(inicio + i) != sufixo.get_char(i) {
            assert(s@.subrange(inicio as int, n as int)[i as int] != sufixo@[i as int]);
            return false;
        }
        i = i + 1;
    }
    assert(s@.subrange(inicio as int, n as int) =~= sufixo@);
    true
}

} // verus!
