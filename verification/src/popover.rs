//! Where the translation popover goes on screen.

use vstd::prelude::*;

verus! {

/// Horizontal offset of the popover from the cursor, as a tooltip or a
/// context menu: it never appears right under the pointer.
pub const DESLOCAMENTO_X: i32 = 16;

/// Vertical offset of the popover from the cursor.
pub const DESLOCAMENTO_Y: i32 = 16;

/// The popover size assumed when the window cannot report its own.
pub const TAMANHO_POPOVER_PADRAO: (u32, u32) = (320, 70);

/// The screen assumed when no monitor can be found at all (Full HD).
pub const TELA_PADRAO: (i32, i32, u32, u32) = (0, 0, 1920, 1080);

/// The value of `u as i32`: the same bits read as two's complement.
pub open spec fn como_i32(u: u32) -> int {
    if u <= 0x7fff_ffff {
        u as int
    } else {
        u - 0x1_0000_0000
    }
}

/// `v` is representable as an `i32`.
pub open spec fn cabe_em_i32(v: int) -> bool {
    i32::MIN <= v <= i32::MAX
}

/// `v` brought into `[minimo, maximo]` (for `minimo <= maximo`).
pub open spec fn limitar(v: int, minimo: int, maximo: int) -> int {
    if v < minimo {
        minimo
    } else if v > maximo {
        maximo
    } else {
        v
    }
}

/// The larger of `a` and `b`.
pub open spec fn maior(a: int, b: int) -> int {
    if a >= b {
        a
    } else {
        b
    }
}

/// The rightmost x at which the popover still ends inside the screen.
pub open spec fn x_maximo(tamanho: (u32, u32), tela: (i32, i32, u32, u32)) -> int {
    tela.0 + como_i32(tela.2) - como_i32(tamanho.0)
}

/// The lowest y at which the popover still ends inside the screen.
pub open spec fn y_maximo(tamanho: (u32, u32), tela: (i32, i32, u32, u32)) -> int {
    tela.1 + como_i32(tela.3) - como_i32(tamanho.1)
}

/// The popover's position: the cursor plus the offset, moved back inside
/// the screen `tela = (x, y, width, height)` where it would leave it.
pub open spec fn posicao_popover(
    cursor: (i32, i32),
    tamanho: (u32, u32),
    tela: (i32, i32, u32, u32),
) -> (int, int) {
    (
        limitar(cursor.0 + DESLOCAMENTO_X, tela.0 as int, maior(x_maximo(tamanho, tela), tela.0 as int)),
        limitar(cursor.1 + DESLOCAMENTO_Y, tela.1 as int, maior(y_maximo(tamanho, tela), tela.1 as int)),
    )
}

/// Every intermediate sum of the position computation fits in an `i32`.
pub open spec fn posicao_sem_estouro(
    cursor: (i32, i32),
    tamanho: (u32, u32),
    tela: (i32, i32, u32, u32),
) -> bool {
    &&& cabe_em_i32(cursor.0 + DESLOCAMENTO_X)
    &&& cabe_em_i32(cursor.1 + DESLOCAMENTO_Y)
    &&& cabe_em_i32(tela.0 + como_i32(tela.2))
    &&& cabe_em_i32(tela.1 + como_i32(tela.3))
    &&& cabe_em_i32(x_maximo(tamanho, tela))
    &&& cabe_em_i32(y_maximo(tamanho, tela))
}

proof fn lemma_como_i32(u: u32)
    ensures
        (u as i32) as int == como_i32(u),
{
    assert(u <= 0x7fff_ffffu32 ==> (u as i32) == u) by (bit_vector);
    assert(u > 0x7fff_ffffu32 ==> (u as i32) == u - 0x1_0000_0000) by (bit_vector);
}

/// Where to put the popover window near the cursor so that no part of it
/// leaves the usable area of the screen, which matters near the edges and
/// corners of a monitor.
pub fn calcular_posicao_popover(
    cursor: (i32, i32),
    tamanho_popover: (u32, u32),
    tela: (i32, i32, u32, u32),
) -> (r: (i32, i32))
    requires
        posicao_sem_estouro(cursor, tamanho_popover, tela),
    ensures
        (r.0 as int, r.1 as int) == posicao_popover(cursor, tamanho_popover, tela),
{
    proof {
        lemma_como_i32(tamanho_popover.0);
        lemma_como_i32(tamanho_popover.1);
        lemma_como_i32(tela.2);
        lemma_como_i32(tela.3);
    }
    let (cursor_x, cursor_y) = cursor;
    let (largura_popover, altura_popover) = (tamanho_popover.0 as i32, tamanho_popover.1 as i32);
    let (tela_x, tela_y, tela_largura, tela_altura) = tela;

    let x_desejado = cursor_x + DESLOCAMENTO_X;
    let y_desejado = cursor_y + DESLOCAMENTO_Y;

    let x_maximo = tela_x + tela_largura as i32 - largura_popover;
    let y_maximo = tela_y + tela_altura as i32 - altura_popover;

    (
        limitar_i32(x_desejado, tela_x, maior_i32(x_maximo, tela_x)),
        limitar_i32(y_desejado, tela_y, maior_i32(y_maximo, tela_y)),
    )
}

fn maior_i32(a: i32, b: i32) -> (r: i32)
    ensures
        r as int == maior(a as int, b as int),
{
    if a >= b {
        a
    } else {
        b
    }
}

fn limitar_i32(v: i32, minimo: i32, maximo: i32) -> (r: i32)
    requires
        minimo <= maximo,
    ensures
        r as int == limitar(v as int, minimo as int, maximo as int),
{
    if v < minimo {
        minimo
    } else if v > maximo {
        maximo
    } else {
        v
    }
}

/// The popover never starts left of or above the screen's origin, wherever
/// the cursor is.
pub proof fn lei_popover_nao_sai_pela_esquerda_nem_pelo_topo(
    cursor: (i32, i32),
    tamanho: (u32, u32),
    tela: (i32, i32, u32, u32),
)
    ensures
        posicao_popover(cursor, tamanho, tela).0 >= tela.0,
        posicao_popover(cursor, tamanho, tela).1 >= tela.1,
{
}

/// A popover no larger than the screen lies wholly inside it: it ends at
/// or before the screen's right and bottom edges.
pub proof fn lei_popover_cabe_na_tela(
    cursor: (i32, i32),
    tamanho: (u32, u32),
    tela: (i32, i32, u32, u32),
)
    requires
        tela.2 <= i32::MAX,
        tela.3 <= i32::MAX,
        tamanho.0 <= tela.2,
        tamanho.1 <= tela.3,
    ensures
        tela.0 <= posicao_popover(cursor, tamanho, tela).0,
        posicao_popover(cursor, tamanho, tela).0 + tamanho.0 <= tela.0 + tela.2,
        tela.1 <= posicao_popover(cursor, tamanho, tela).1,
        posicao_popover(cursor, tamanho, tela).1 + tamanho.1 <= tela.1 + tela.3,
{
}

/// Where the offset position leaves the whole popover on screen, the
/// popover sits exactly at the cursor plus the offset.
pub proof fn lei_popover_segue_o_cursor_quando_ha_espaco(
    cursor: (i32, i32),
    tamanho: (u32, u32),
    tela: (i32, i32, u32, u32),
)
    requires
        tela.0 <= cursor.0 + DESLOCAMENTO_X <= x_maximo(tamanho, tela),
        tela.1 <= cursor.1 + DESLOCAMENTO_Y <= y_maximo(tamanho, tela),
    ensures
        posicao_popover(cursor, tamanho, tela) == (
            cursor.0 + DESLOCAMENTO_X,
            cursor.1 + DESLOCAMENTO_Y,
        ),
{
}

/// The popover sits 16 pixels right of and below the cursor wherever that
/// keeps it wholly on the screen; where the cursor is too far left or up it
/// touches the screen's left or top edge, and where it would cross the
/// right or bottom edge of a screen at least as large as it, it touches
/// that edge.
pub proof fn lei_popover_deslocado_ou_encostado_na_borda(
    cursor: (i32, i32),
    tamanho: (u32, u32),
    tela: (i32, i32, u32, u32),
)
    requires
        tela.2 <= i32::MAX,
        tela.3 <= i32::MAX,
        tamanho.0 <= tela.2,
        tamanho.1 <= tela.3,
    ensures
        tela.0 <= cursor.0 + 16 && cursor.0 + 16 + tamanho.0 <= tela.0 + tela.2 ==> posicao_popover(
            cursor,
            tamanho,
            tela,
        ).0 == cursor.0 + 16,
        tela.1 <= cursor.1 + 16 && cursor.1 + 16 + tamanho.1 <= tela.1 + tela.3 ==> posicao_popover(
            cursor,
            tamanho,
            tela,
        ).1 == cursor.1 + 16,
        cursor.0 + 16 < tela.0 ==> posicao_popover(cursor, tamanho, tela).0 == tela.0,
        cursor.1 + 16 < tela.1 ==> posicao_popover(cursor, tamanho, tela).1 == tela.1,
        cursor.0 + 16 + tamanho.0 > tela.0 + tela.2 ==> posicao_popover(cursor, tamanho, tela).0
            + tamanho.0 == tela.0 + tela.2,
        cursor.1 + 16 + tamanho.1 > tela.1 + tela.3 ==> posicao_popover(cursor, tamanho, tela).1
            + tamanho.1 == tela.1 + tela.3,
{
}

/// The monitor `m = (x, y, width, height)` contains the cursor.
pub open spec fn contem_cursor(m: (i32, i32, u32, u32), cursor: (i32, i32)) -> bool {
    &&& cursor.0 >= m.0
    &&& cursor.0 < m.0 + como_i32(m.2)
    &&& cursor.1 >= m.1
    &&& cursor.1 < m.1 + como_i32(m.3)
}

/// The containment test on `m`, evaluated left to right and stopping at
/// the first false comparison, adds nothing that overflows an `i32`.
pub open spec fn teste_sem_estouro(m: (i32, i32, u32, u32), cursor: (i32, i32)) -> bool {
    &&& cursor.0 >= m.0 ==> cabe_em_i32(m.0 + como_i32(m.2))
    &&& (cursor.0 >= m.0 && cursor.0 < m.0 + como_i32(m.2) && cursor.1 >= m.1) ==> cabe_em_i32(
        m.1 + como_i32(m.3),
    )
}

/// The first monitor of the list that contains the cursor.
pub open spec fn primeiro_contendo(
    monitores: Seq<(i32, i32, u32, u32)>,
    cursor: (i32, i32),
) -> Option<(i32, i32, u32, u32)>
    decreases monitores.len(),
{
    if monitores.len() == 0 {
        None
    } else if contem_cursor(monitores[0], cursor) {
        Some(monitores[0])
    } else {
        primeiro_contendo(monitores.drop_first(), cursor)
    }
}

/// Looking for the first monitor that contains the cursor overflows on
/// none of the monitors it tests.
pub open spec fn busca_sem_estouro(monitores: Seq<(i32, i32, u32, u32)>, cursor: (i32, i32)) -> bool
    decreases monitores.len(),
{
    monitores.len() == 0 || (teste_sem_estouro(monitores[0], cursor) && (contem_cursor(
        monitores[0],
        cursor,
    ) || busca_sem_estouro(monitores.drop_first(), cursor)))
}

/// The bounds of the monitor under the cursor: the first monitor that
/// contains it, else the window's current monitor, else a Full HD screen
/// at the origin.
pub open spec fn limites_do_monitor(
    monitores: Seq<(i32, i32, u32, u32)>,
    atual: Option<(i32, i32, u32, u32)>,
    cursor: (i32, i32),
) -> (i32, i32, u32, u32) {
    match primeiro_contendo(monitores, cursor) {
        Some(m) => m,
        None => match atual {
            Some(m) => m,
            None => TELA_PADRAO,
        },
    }
}

/// When some monitor of the list contains the cursor in both coordinates,
/// the chosen bounds contain it too: the popover is placed on the screen
/// the cursor is on, and that screen comes from the list.
pub proof fn lei_monitor_escolhido_contem_o_cursor(
    monitores: Seq<(i32, i32, u32, u32)>,
    atual: Option<(i32, i32, u32, u32)>,
    cursor: (i32, i32),
    i: int,
)
    requires
        0 <= i < monitores.len(),
        monitores[i].0 <= cursor.0,
        cursor.0 < monitores[i].0 + como_i32(monitores[i].2),
        monitores[i].1 <= cursor.1,
        cursor.1 < monitores[i].1 + como_i32(monitores[i].3),
    ensures
        limites_do_monitor(monitores, atual, cursor).0 <= cursor.0,
        cursor.0 < limites_do_monitor(monitores, atual, cursor).0 + como_i32(
            limites_do_monitor(monitores, atual, cursor).2,
        ),
        limites_do_monitor(monitores, atual, cursor).1 <= cursor.1,
        cursor.1 < limites_do_monitor(monitores, atual, cursor).1 + como_i32(
            limites_do_monitor(monitores, atual, cursor).3,
        ),
        monitores.contains(limites_do_monitor(monitores, atual, cursor)),
    decreases monitores.len(),
{
    if monitores[0].0 <= cursor.0 && cursor.0 < monitores[0].0 + como_i32(monitores[0].2)
        && monitores[0].1 <= cursor.1 && cursor.1 < monitores[0].1 + como_i32(monitores[0].3) {
        assert(monitores.contains(monitores[0]));
    } else {
        let resto = monitores.drop_first();
        assert(resto[i - 1] == monitores[i]);
        lei_monitor_escolhido_contem_o_cursor(resto, atual, cursor, i - 1);
        let m = limites_do_monitor(resto, atual, cursor);
        let k = choose|k: int| 0 <= k < resto.len() && resto[k] == m;
        assert(monitores[k + 1] == m);
    }
}

/// When no monitor of the list contains the cursor, the bounds are those
/// of the window's current monitor, or a Full HD screen at the origin.
pub proof fn lei_monitor_sem_correspondencia(
    monitores: Seq<(i32, i32, u32, u32)>,
    atual: Option<(i32, i32, u32, u32)>,
    cursor: (i32, i32),
)
    requires
        forall|i: int|
            0 <= i < monitores.len() ==> !(#[trigger] monitores[i].0 <= cursor.0 && cursor.0
                < monitores[i].0 + como_i32(monitores[i].2) && monitores[i].1 <= cursor.1
                && cursor.1 < monitores[i].1 + como_i32(monitores[i].3)),
    ensures
        atual matches Some(a) ==> limites_do_monitor(monitores, atual, cursor) == a,
        atual is None ==> limites_do_monitor(monitores, atual, cursor) == (0i32, 0i32, 1920u32, 1080u32),
    decreases monitores.len(),
{
    if monitores.len() > 0 {
        let resto = monitores.drop_first();
        assert forall|i: int|
            0 <= i < resto.len() implies !(#[trigger] resto[i].0 <= cursor.0 && cursor.0
                < resto[i].0 + como_i32(resto[i].2) && resto[i].1 <= cursor.1 && cursor.1
                < resto[i].1 + como_i32(resto[i].3)) by {
            assert(resto[i] == monitores[i + 1]);
        }
        assert(!(monitores[0].0 <= cursor.0 && cursor.0 < monitores[0].0 + como_i32(monitores[0].2)
            && monitores[0].1 <= cursor.1 && cursor.1 < monitores[0].1 + como_i32(
            monitores[0].3,
        )));
        lei_monitor_sem_correspondencia(resto, atual, cursor);
    }
}

fn contem_cursor_exec(m: (i32, i32, u32, u32), cursor: (i32, i32)) -> (r: bool)
    requires
        teste_sem_estouro(m, cursor),
    ensures
        r == contem_cursor(m, cursor),
{
    proof {
        lemma_como_i32(m.2);
        lemma_como_i32(m.3);
    }
    cursor.0 >= m.0 && cursor.0 < m.0 + m.2 as i32 && cursor.1 >= m.1 && cursor.1 < m.1
        + m.3 as i32
}

/// Finds the bounds `(x, y, width, height)` of the monitor that contains
/// `cursor`, falling back to the window's current monitor `atual` when no
/// monitor matches exactly (a coordinate one pixel off after rounding on
/// a screen with fractional scaling), and to a Full HD screen at the
/// origin when there is no monitor at all.
pub fn limites_do_monitor_do_cursor(
    monitores: &Vec<(i32, i32, u32, u32)>,
    atual: Option<(i32, i32, u32, u32)>,
    cursor: (i32, i32),
) -> (r: (i32, i32, u32, u32))
    requires
        busca_sem_estouro(monitores@, cursor),
    ensures
        r == limites_do_monitor(monitores@, atual, cursor),
        (exists|i: int|
            0 <= i < monitores@.len() && #[trigger] monitores@[i].0 <= cursor.0 && cursor.0
                < monitores@[i].0 + como_i32(monitores@[i].2) && monitores@[i].1 <= cursor.1
                && cursor.1 < monitores@[i].1 + como_i32(monitores@[i].3)) ==> (r.0 <= cursor.0
            && cursor.0 < r.0 + como_i32(r.2) && r.1 <= cursor.1 && cursor.1 < r.1 + como_i32(r.3)),
{
    proof {
        if exists|i: int|
            0 <= i < monitores@.len() && #[trigger] monitores@[i].0 <= cursor.0 && cursor.0
                < monitores@[i].0 + como_i32(monitores@[i].2) && monitores@[i].1 <= cursor.1
                && cursor.1 < monitores@[i].1 + como_i32(monitores@[i].3) {
            let i = choose|i: int|
                0 <= i < monitores@.len() && #[trigger] monitores@[i].0 <= cursor.0 && cursor.0
                    < monitores@[i].0 + como_i32(monitores@[i].2) && monitores@[i].1 <= cursor.1
                    && cursor.1 < monitores@[i].1 + como_i32(monitores@[i].3);
            lei_monitor_escolhido_contem_o_cursor(monitores@, atual, cursor, i);
        }
    }
    let n = monitores.len();
    let mut i: usize = 0;
    assert(monitores@.subrange(0, n as int) =~= monitores@);
    while i < n
        invariant
            n == monitores@.len(),
            i <= n,
            primeiro_contendo(monitores@, cursor) == primeiro_contendo(
                monitores@.subrange(i as int, n as int),
                cursor,
            ),
            busca_sem_estouro(monitores@.subrange(i as int, n as int), cursor),
        decreases n - i,
    {
        let ghost resto = monitores@.subrange(i as int, n as int);
        assert(resto[0] == monitores@[i as int]);
        assert(resto.drop_first() =~= monitores@.subrange(i + 1, n as int));
        let m = monitores[i];
        if contem_cursor_exec(m, cursor) {
            return m;
        }
        i = i + 1;
    }
    match atual {
        Some(m) => m,
        None => TELA_PADRAO,
    }
}

/// Where the popover goes: its own size (or the default size when the
/// window cannot report one), the bounds of the monitor under the cursor,
/// and the offset position moved back inside them.
pub fn posicao_do_popover(
    cursor: (i32, i32),
    tamanho: Option<(u32, u32)>,
    monitores: &Vec<(i32, i32, u32, u32)>,
    atual: Option<(i32, i32, u32, u32)>,
) -> (r: (i32, i32))
    requires
        busca_sem_estouro(monitores@, cursor),
        posicao_sem_estouro(
            cursor,
            match tamanho {
                Some(t) => t,
                None => TAMANHO_POPOVER_PADRAO,
            },
            limites_do_monitor(monitores@, atual, cursor),
        ),
    ensures
        (r.0 as int, r.1 as int) == posicao_popover(
            cursor,
            match tamanho {
                Some(t) => t,
                None => TAMANHO_POPOVER_PADRAO,
            },
            limites_do_monitor(monitores@, atual, cursor),
        ),
{
    let tamanho = match tamanho {
        Some(t) => t,
        None => TAMANHO_POPOVER_PADRAO,
    };
    let tela = limites_do_monitor_do_cursor(monitores, atual, cursor);
    calcular_posicao_popover(cursor, tamanho, tela)
}

/// `u as i32`, widened without loss.
fn como_i64(u: u32) -> (r: i64)
    ensures
        r as int == como_i32(u),
{
    proof {
        lemma_como_i32(u);
    }
    (u as i32) as i64
}

/// `v` is representable as an `i32`.
fn cabe_em_i32_exec(v: i64) -> (r: bool)
    ensures
        r == cabe_em_i32(v as int),
{
    i32::MIN as i64 <= v && v <= i32::MAX as i64
}

/// Tests `posicao_sem_estouro`: the position of a popover of this size on
/// this screen can be computed with `i32` sums.
pub fn calculo_de_posicao_cabe(
    cursor: (i32, i32),
    tamanho: (u32, u32),
    tela: (i32, i32, u32, u32),
) -> (r: bool)
    ensures
        r == posicao_sem_estouro(cursor, tamanho, tela),
{
    let fim_x = tela.0 as i64 + como_i64(tela.2);
    let fim_y = tela.1 as i64 + como_i64(tela.3);
    cabe_em_i32_exec(cursor.0 as i64 + DESLOCAMENTO_X as i64) && cabe_em_i32_exec(
        cursor.1 as i64 + DESLOCAMENTO_Y as i64,
    ) && cabe_em_i32_exec(fim_x) && cabe_em_i32_exec(fim_y) && cabe_em_i32_exec(
        fim_x - como_i64(tamanho.0),
    ) && cabe_em_i32_exec(fim_y - como_i64(tamanho.1))
}

/// Tests `busca_sem_estouro`: looking for the monitor under the cursor
/// only adds what fits in an `i32`.
pub fn busca_de_monitor_cabe(monitores: &Vec<(i32, i32, u32, u32)>, cursor: (i32, i32)) -> (r: bool)
    ensures
        r == busca_sem_estouro(monitores@, cursor),
{
    let n = monitores.len();
    let mut i: usize = 0;
    assert(monitores@.subrange(0, n as int) =~= monitores@);
    while i < n
        invariant
            n == monitores@.len(),
            i <= n,
            busca_sem_estouro(monitores@, cursor) == busca_sem_estouro(
                monitores@.subrange(i as int, n as int),
                cursor,
            ),
        decreases n - i,
    {
        let ghost resto = monitores@.subrange(i as int, n as int);
        assert(resto[0] == monitores@[i as int]);
        assert(resto.drop_first() =~= monitores@.subrange(i + 1, n as int));
        let m = monitores[i];
        let fim_x = m.0 as i64 + como_i64(m.2);
        let fim_y = m.1 as i64 + como_i64(m.3);
        if cursor.0 >= m.0 && !cabe_em_i32_exec(fim_x) {
            return false;
        }
        let contem_x = cursor.0 >= m.0 && (cursor.0 as i64) < fim_x;
        if contem_x && cursor.1 >= m.1 && !cabe_em_i32_exec(fim_y) {
            return false;
        }
        if contem_x && cursor.1 >= m.1 && (cursor.1 as i64) < fim_y {
            return true;
        }
        i = i + 1;
    }
    true
}

/// Where the popover goes, when it can be computed without overflowing an
/// `i32`; `None` on the inputs whose sums overflow.
pub fn posicao_do_popover_verificada(
    cursor: (i32, i32),
    tamanho: Option<(u32, u32)>,
    monitores: &Vec<(i32, i32, u32, u32)>,
    atual: Option<(i32, i32, u32, u32)>,
) -> (r: Option<(i32, i32)>)
    ensures
        r is Some <==> busca_sem_estouro(monitores@, cursor) && posicao_sem_estouro(
            cursor,
            match tamanho {
                Some(t) => t,
                None => TAMANHO_POPOVER_PADRAO,
            },
            limites_do_monitor(monitores@, atual, cursor),
        ),
        r matches Some(p) ==> (p.0 as int, p.1 as int) == posicao_popover(
            cursor,
            match tamanho {
                Some(t) => t,
                None => TAMANHO_POPOVER_PADRAO,
            },
            limites_do_monitor(monitores@, atual, cursor),
        ),
{
    if !busca_de_monitor_cabe(monitores, cursor) {
        return None;
    }
    let tela = limites_do_monitor_do_cursor(monitores, atual, cursor);
    let t = match tamanho {
        Some(t) => t,
        None => TAMANHO_POPOVER_PADRAO,
    };
    if !calculo_de_posicao_cabe(cursor, t, tela) {
        return None;
    }
    Some(posicao_do_popover(cursor, tamanho, monitores, atual))
}

} // verus!
