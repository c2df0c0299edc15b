use versoes::registro::Versao;
use versoes::selecao::top_versoes;

fn registro(id: i32, versao: u32, download: &str) -> Versao {
    Versao { id, versao, download: download.to_string() }
}

#[test]
fn lote_vazio_da_listagem_vazia() {
    let saida = top_versoes(Vec::new());
    assert!(saida.is_empty());
}

#[test]
fn lote_pequeno_sai_inteiro_em_ordem() {
    let lote = vec![
        registro(1, 5, "a.zip"),
        registro(2, 20, "b.zip"),
        registro(3, 10, "c.zip"),
    ];
    let saida = top_versoes(lote);
    assert_eq!(saida.len(), 3);
    assert_eq!(saida[0].versao, 20);
    assert_eq!(saida[1].versao, 10);
    assert_eq!(saida[2].versao, 5);
    assert_eq!(saida[0].download, "b.zip");
    assert_eq!(saida[1].download, "c.zip");
    assert_eq!(saida[2].download, "a.zip");
}

#[test]
fn lote_grande_corta_nas_dez_maiores() {
    let mut lote = Vec::new();
    for n in 1..=12u32 {
        let texto = format!("v{}.zip", n);
        lote.push(registro(n as i32, n, &texto));
    }
    let saida = top_versoes(lote);
    assert_eq!(saida.len(), 10);
    for n in 0..10u32 {
        assert_eq!(saida[n as usize].versao, 12 - n);
    }
    assert!(saida.iter().all(|v| v.versao != 1 && v.versao != 2));
}

#[test]
fn empates_sao_contados_com_multiplicidade() {
    let lote = vec![
        registro(1, 7, "a.zip"),
        registro(2, 7, "b.zip"),
        registro(3, 3, "c.zip"),
    ];
    let saida = top_versoes(lote);
    assert_eq!(saida.len(), 3);
    assert_eq!(saida.iter().filter(|v| v.versao == 7).count(), 2);
    assert_eq!(saida.iter().filter(|v| v.versao == 3).count(), 1);
    assert!(saida.iter().any(|v| v.download == "a.zip"));
    assert!(saida.iter().any(|v| v.download == "b.zip"));
}
