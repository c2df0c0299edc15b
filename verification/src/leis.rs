use vstd::prelude::*;
use crate::registro::{
    Linha, Tabela, Versao, apos_atualizacao, apos_insercao, apos_remocao, concorrentes_acima,
    dominada, limite_listagem, linhas_da_tabela, selecao_valida,
};

verus! {

/// A batch of records that stands for the rows of a table has exactly one
/// record per row.
pub proof fn lei_linhas_cobrem_tabela(t: Tabela, linhas: Seq<Versao>)
    requires
        linhas_da_tabela(t, linhas),
        t.dom().finite(),
    ensures
        linhas.len() == t.dom().len(),
{
    broadcast use vstd::set::group_set_axioms;

    let ids = linhas.map_values(|v: Versao| v.id as int);
    assert(forall|i: int, j: int|
        0 <= i < ids.len() && 0 <= j < ids.len() && i != j ==> #[trigger] ids[i]
            != #[trigger] ids[j]) by {
        assert(forall|i: int, j: int|
            0 <= i < linhas.len() && 0 <= j < linhas.len() && i != j ==> #[trigger] linhas[i].id
                != #[trigger] linhas[j].id);
    }
    assert(ids.to_set() =~= t.dom()) by {
        assert forall|x: int| ids.to_set().contains(x) implies t.dom().contains(x) by {
            let i = choose|i: int| 0 <= i < ids.len() && ids[i] == x;
            assert(t.contains_pair(linhas[i].id as int, (linhas[i].versao, linhas[i].download@)));
        }
        assert forall|x: int| t.dom().contains(x) implies ids.to_set().contains(x) by {
            let i = choose|i: int| 0 <= i < linhas.len() && linhas[i].id == x;
            assert(ids[i] == x);
            assert(ids.contains(x));
        }
    }
    ids.unique_seq_to_set();
}

/// Every row of a table of at most ten rows appears in its listing: what was
/// stored is what is shown, as long as the limit does not cut.
pub proof fn lei_listagem_contem(t: Tabela, linhas: Seq<Versao>, saida: Seq<Versao>, id: int)
    requires
        linhas_da_tabela(t, linhas),
        selecao_valida(linhas, saida),
        t.dom().finite(),
        t.dom().len() <= limite_listagem(),
        t.dom().contains(id),
    ensures
        exists|i: int|
            0 <= i < saida.len() && #[trigger] saida[i].id == id && (
            saida[i].versao,
            saida[i].download@,
            ) == t[id],
{
    broadcast use vstd::seq_lib::group_to_multiset_ensures;
    broadcast use vstd::multiset::group_multiset_axioms;

    lei_linhas_cobrem_tabela(t, linhas);
    let j = choose|j: int| 0 <= j < linhas.len() && linhas[j].id == id;
    let x = linhas[j];
    assert(t.contains_pair(x.id as int, (x.versao, x.download@)));
    assert(linhas.contains(x));
    assert(saida.to_multiset().count(x) > 0);
    assert(saida.contains(x));
    let i = choose|i: int| 0 <= i < saida.len() && saida[i] == x;
    assert(0 <= i < saida.len() && saida[i].id == id && (saida[i].versao, saida[i].download@)
        == t[id]);
}

/// A listing shows nothing but the table and shows no row twice: every
/// record of it is a stored row, and no id repeats, so each stored row
/// appears at most once.
pub proof fn lei_listagem_sem_repeticao(t: Tabela, linhas: Seq<Versao>, saida: Seq<Versao>)
    requires
        linhas_da_tabela(t, linhas),
        selecao_valida(linhas, saida),
    ensures
        forall|i: int|
            0 <= i < saida.len() ==> t.contains_pair(
                #[trigger] saida[i].id as int,
                (saida[i].versao, saida[i].download@),
            ),
        forall|i: int, j: int|
            0 <= i < j < saida.len() ==> #[trigger] saida[i].id != #[trigger] saida[j].id,
{
    broadcast use vstd::seq_lib::group_to_multiset_ensures;
    broadcast use vstd::multiset::group_multiset_axioms;

    assert forall|i: int|
        0 <= i < saida.len() implies t.contains_pair(
        #[trigger] saida[i].id as int,
        (saida[i].versao, saida[i].download@),
    ) by {
        assert(saida.contains(saida[i]));
        assert(saida.to_multiset().count(saida[i]) > 0);
        assert(linhas.to_multiset().count(saida[i]) > 0);
        assert(linhas.contains(saida[i]));
        let a = choose|a: int| 0 <= a < linhas.len() && linhas[a] == saida[i];
        assert(t.contains_pair(linhas[a].id as int, (linhas[a].versao, linhas[a].download@)));
    }
    assert(linhas.no_duplicates()) by {
        assert forall|a: int, b: int|
            0 <= a < linhas.len() && 0 <= b < linhas.len() && a != b implies linhas[a]
            != linhas[b] by {
            if a < b {
                assert(linhas[a].id != linhas[b].id);
            } else {
                assert(linhas[b].id != linhas[a].id);
            }
        }
    }
    linhas.lemma_multiset_has_no_duplicates();
    assert forall|i: int, j: int|
        0 <= i < j < saida.len() implies #[trigger] saida[i].id != #[trigger] saida[j].id by {
        if saida[i].id == saida[j].id {
            assert(saida.contains(saida[i]));
            assert(saida.to_multiset().count(saida[i]) > 0);
            assert(linhas.to_multiset().count(saida[i]) > 0);
            assert(linhas.contains(saida[i]));
            let a = choose|a: int| 0 <= a < linhas.len() && linhas[a] == saida[i];
            assert(saida.contains(saida[j]));
            assert(saida.to_multiset().count(saida[j]) > 0);
            assert(linhas.to_multiset().count(saida[j]) > 0);
            assert(linhas.contains(saida[j]));
            let b = choose|b: int| 0 <= b < linhas.len() && linhas[b] == saida[j];
            assert(linhas[a].id == linhas[b].id);
            assert(a == b);
            let x = saida[i];
            assert(saida.remove(i).to_multiset() == saida.to_multiset().remove(x));
            assert(saida.remove(i)[j - 1] == x);
            assert(saida.remove(i).contains(x));
            assert(saida.to_multiset().remove(x).count(x) > 0);
            assert(saida.to_multiset().count(x) >= 2);
            assert(linhas.to_multiset().count(x) <= 1);
            assert(false);
        }
    }
}

/// A stored row that fewer than ten other rows match or beat in version key
/// appears in the listing, however large the table: the cut can only drop a
/// row in favour of ten such rows.
pub proof fn lei_listagem_contem_alta(t: Tabela, linhas: Seq<Versao>, saida: Seq<Versao>, id: int)
    requires
        linhas_da_tabela(t, linhas),
        selecao_valida(linhas, saida),
        t.dom().finite(),
        t.dom().contains(id),
        concorrentes_acima(t, id).len() < limite_listagem(),
    ensures
        exists|i: int|
            0 <= i < saida.len() && #[trigger] saida[i].id == id && (
            saida[i].versao,
            saida[i].download@,
            ) == t[id],
{
    broadcast use vstd::seq_lib::group_to_multiset_ensures;
    broadcast use vstd::multiset::group_multiset_axioms;
    broadcast use vstd::set::group_set_axioms;

    let alvo = exists|i: int|
        0 <= i < saida.len() && #[trigger] saida[i].id == id && (
        saida[i].versao,
        saida[i].download@,
        ) == t[id];
    if !alvo {
        lei_listagem_sem_repeticao(t, linhas, saida);
        assert forall|i: int| 0 <= i < saida.len() implies #[trigger] saida[i].id != id by {
            if saida[i].id == id {
                assert(t.contains_pair(saida[i].id as int, (saida[i].versao, saida[i].download@)));
                assert((saida[i].versao, saida[i].download@) == t[id]);
                assert(alvo);
            }
        }
        let j = choose|j: int| 0 <= j < linhas.len() && linhas[j].id == id;
        let x = linhas[j];
        assert(t.contains_pair(x.id as int, (x.versao, x.download@)));
        assert(linhas.contains(x));
        assert(linhas.to_multiset().count(x) > 0);
        if saida.to_multiset().count(x) > 0 {
            assert(saida.contains(x));
            let i = choose|i: int| 0 <= i < saida.len() && saida[i] == x;
            assert(saida[i].id == id);
        }
        assert(saida.to_multiset().count(x) < linhas.to_multiset().count(x));
        assert(dominada(saida, x));
        if linhas.len() <= limite_listagem() {
            assert(saida.to_multiset() == linhas.to_multiset());
        }
        assert(saida.len() == limite_listagem());
        let ids = saida.map_values(|v: Versao| v.id as int);
        assert(ids.no_duplicates()) by {
            assert(forall|a: int, b: int|
                0 <= a < saida.len() && 0 <= b < saida.len() && a != b ==> #[trigger] saida[a].id
                    != #[trigger] saida[b].id);
            assert(forall|a: int| 0 <= a < ids.len() ==> #[trigger] ids[a] == saida[a].id as int);
        }
        assert(ids.to_set().subset_of(concorrentes_acima(t, id))) by {
            assert forall|k: int| ids.to_set().contains(k) implies concorrentes_acima(
                t,
                id,
            ).contains(k) by {
                let i = choose|i: int| 0 <= i < ids.len() && ids[i] == k;
                assert(t.contains_pair(saida[i].id as int, (saida[i].versao, saida[i].download@)));
                assert(x.versao <= saida[i].versao);
                assert(t[k].0 >= t[id].0);
            }
        }
        ids.unique_seq_to_set();
        vstd::set_lib::lemma_len_subset(concorrentes_acima(t, id), t.dom());
        vstd::set_lib::lemma_len_subset(ids.to_set(), concorrentes_acima(t, id));
        assert(false);
    }
}

/// A stored row that the listing leaves out has a version key at most that
/// of every listed record: the cut drops only the lowest versions.
pub proof fn lei_listagem_domina(t: Tabela, linhas: Seq<Versao>, saida: Seq<Versao>, id: int)
    requires
        linhas_da_tabela(t, linhas),
        selecao_valida(linhas, saida),
        t.dom().contains(id),
        forall|i: int| 0 <= i < saida.len() ==> #[trigger] saida[i].id != id,
    ensures
        forall|i: int| 0 <= i < saida.len() ==> t[id].0 <= #[trigger] saida[i].versao,
{
    broadcast use vstd::seq_lib::group_to_multiset_ensures;
    broadcast use vstd::multiset::group_multiset_axioms;

    let j = choose|j: int| 0 <= j < linhas.len() && linhas[j].id == id;
    let x = linhas[j];
    assert(t.contains_pair(x.id as int, (x.versao, x.download@)));
    assert(linhas.contains(x));
    assert(linhas.to_multiset().count(x) > 0);
    if saida.to_multiset().count(x) > 0 {
        assert(saida.contains(x));
        let i = choose|i: int| 0 <= i < saida.len() && saida[i] == x;
        assert(saida[i].id == id);
        assert(false);
    }
    assert(saida.to_multiset().count(x) < linhas.to_multiset().count(x));
    assert(dominada(saida, x));
}

/// Deleting an id that no row bears leaves the table as it was: a delete is
/// an idempotent no-op on absent rows.
pub proof fn lei_remocao_sem_linha(t: Tabela, id: int)
    requires
        !t.dom().contains(id),
    ensures
        apos_remocao(t, id) == t,
{
    assert(apos_remocao(t, id) =~= t);
}

/// Updating an id that no row bears leaves the table as it was: an update is
/// an idempotent no-op on absent rows.
pub proof fn lei_atualizacao_sem_linha(t: Tabela, id: int, linha: Linha)
    requires
        !t.dom().contains(id),
    ensures
        apos_atualizacao(t, id, linha) == t,
{
}

/// An insert under a fresh id keeps every existing row and adds exactly one:
/// with all table changes serialised, no insert is lost, however many callers
/// interleave.
pub proof fn lei_insercao_preserva(t: Tabela, novo: int, linha: Linha)
    requires
        t.dom().finite(),
        !t.dom().contains(novo),
    ensures
        apos_insercao(t, novo, linha).contains_pair(novo, linha),
        forall|id: int|
            t.dom().contains(id) ==> apos_insercao(t, novo, linha).contains_pair(
                id,
                #[trigger] t[id],
            ),
        apos_insercao(t, novo, linha).dom().len() == t.dom().len() + 1,
{
    broadcast use vstd::set::group_set_axioms;

    assert(apos_insercao(t, novo, linha).dom() =~= t.dom().insert(novo));
}

} // verus!
